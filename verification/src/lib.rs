//! Packet buffers, synthetic packet generation and port bookkeeping for a
//! small network-function framework, with their contracts proved by Verus.
pub mod context;
pub mod hashing;
pub mod mbuf;
pub mod nf;
pub mod port;
pub mod rand;
pub mod setup;
pub mod synth;
pub mod text;
