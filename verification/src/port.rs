//! A simulated port: its receive and transmit counters, and a small
//! arithmetic helper kept with it.
use vstd::prelude::*;

verus! {

/// The Fibonacci numbers: `fib_spec(0) == 0`, `fib_spec(1) == 1`, and each
/// later one the sum of the two before it.
pub open spec fn fib_spec(n: nat) -> nat
    decreases n,
{
    if n == 0 {
        0
    } else if n == 1 {
        1
    } else {
        fib_spec((n - 1) as nat) + fib_spec((n - 2) as nat)
    }
}

/// Fibonacci numbers never decrease.
pub proof fn lemma_fib_monotonic(i: nat, j: nat)
    requires
        i <= j,
    ensures
        fib_spec(i) <= fib_spec(j),
    decreases j - i,
{
    if i < j {
        lemma_fib_monotonic(i, (j - 1) as nat);
        if j >= 2 {
            assert(fib_spec(j) == fib_spec((j - 1) as nat) + fib_spec((j - 2) as nat));
        }
    }
}

/// Computes the `n`-th Fibonacci number by the naive double recursion.
pub fn fib(n: u64) -> (r: u64)
    requires
        fib_spec(n as nat) <= u64::MAX,
    ensures
        r == fib_spec(n as nat),
    decreases n,
{
    if n == 0 {
        return 0;
    } else if n == 1 {
        return 1;
    } else {
        proof {
            lemma_fib_monotonic((n - 1) as nat, n as nat);
            lemma_fib_monotonic((n - 2) as nat, n as nat);
        }
        return fib(n - 1) + fib(n - 2);
    }
}

/// A packet counter of a port; it wraps around at `usize::MAX + 1`.
pub struct PortStats {
    pub stats: usize,
}

impl PortStats {
    /// A counter at zero.
    pub fn new() -> (r: PortStats)
        ensures
            r.stats == 0,
    {
        PortStats { stats: 0 }
    }

    /// Counts `n` more packets.
    pub fn add(&mut self, n: usize)
        ensures
            final(self).stats == (old(self).stats + n) % (usize::MAX + 1),
    {
        if n <= usize::MAX - self.stats {
            proof {
                vstd::arithmetic::div_mod::lemma_small_mod(
                    (self.stats + n) as nat,
                    (usize::MAX + 1) as nat,
                );
            }
            self.stats = self.stats + n;
        } else {
            let wrapped: usize = n - (usize::MAX - self.stats) - 1;
            proof {
                let m = (usize::MAX + 1) as int;
                vstd::arithmetic::div_mod::lemma_fundamental_div_mod_converse(
                    self.stats + n,
                    m,
                    1,
                    wrapped as int,
                );
            }
            self.stats = wrapped;
        }
    }
}

/// A simulated port: the counts of the packets received and sent through its
/// queues.
pub struct SimulatePort {
    pub stats_rx: PortStats,
    pub stats_tx: PortStats,
}

impl SimulatePort {
    /// A port that has received and sent nothing.
    pub fn new() -> (r: SimulatePort)
        ensures
            r.stats_rx.stats == 0,
            r.stats_tx.stats == 0,
    {
        SimulatePort { stats_rx: PortStats::new(), stats_tx: PortStats::new() }
    }

    /// Counts a batch of `n` packets handed to a queue of this port to send.
    pub fn record_sent(&mut self, n: usize)
        ensures
            final(self).stats_tx.stats == (old(self).stats_tx.stats + n) % (usize::MAX + 1),
            final(self).stats_rx.stats == old(self).stats_rx.stats,
    {
        self.stats_tx.add(n);
    }

    /// Counts `n` packets received through a queue of this port.
    pub fn record_received(&mut self, n: usize)
        ensures
            final(self).stats_rx.stats == (old(self).stats_rx.stats + n) % (usize::MAX + 1),
            final(self).stats_tx.stats == old(self).stats_tx.stats,
    {
        self.stats_rx.add(n);
    }

    /// Get stats for an RX/TX queue pair.
    pub fn stats(&self) -> (r: (usize, usize))
        ensures
            r == (self.stats_rx.stats, self.stats_tx.stats),
    {
        (self.stats_rx.stats, self.stats_tx.stats)
    }
}

} // verus!
