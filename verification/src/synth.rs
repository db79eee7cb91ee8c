//! Synthetic packets: a TCP/IPv4 packet over Ethernet whose addresses and
//! ports are derived from a Zipf-distributed index and whose payload is
//! filled from the pseudo-random generator.
use vstd::prelude::*;
use crate::hashing::{fx_finish, FxState};
use crate::mbuf::{MBuf, MBufView, MAX_MBUF_SIZE};
use crate::rand::{myrand, rand_after};

verus! {

/// The length of the Ethernet, IPv4 and TCP headers at the front of a
/// synthetic packet; the payload starts here.
pub const HEADER_LEN: usize = 54;

/// Byte `j` (0 is the most significant) of `r` in big-endian order, as
/// `u64::to_be_bytes` lays it out.
pub open spec fn be_byte(r: u64, j: u64) -> u8 {
    (r >> ((56 - 8 * j) as u64)) as u8
}

/// The byte that the random fill puts `k` bytes after its start: byte
/// `k % 8` of the `(k / 8 + 1)`-th number drawn from state `seed`.
pub open spec fn rand_byte(seed: u64, k: int) -> u8 {
    be_byte(rand_after(seed, (k / 8 + 1) as nat), (k % 8) as u64)
}

/// How many numbers the random fill draws for a payload of `len` bytes: one
/// for each whole 64 bytes, and one more.
pub open spec fn fill_draws(len: int) -> int {
    len / 64 + 1
}

/// The four octets of an IPv4 address held in a `u32`, most significant
/// first.
pub open spec fn ipv4_octets(ip: u32) -> Seq<u8> {
    seq![
        ((ip >> 24u32) & 0xff) as u8,
        ((ip >> 16u32) & 0xff) as u8,
        ((ip >> 8u32) & 0xff) as u8,
        (ip & 0xff) as u8,
    ]
}

/// The source and destination addresses and ports derived from a Zipf index.
/// One hasher is fed, in turn, the index as a `u32`, the source address as a
/// `u32`, the index cut to a `u16`, and the source port as a `u16`; after each
/// write, what the hasher returns, cut to the field's width, is the next
/// field: source address, destination address, source port, destination
/// port.
pub open spec fn zipf_five_tuple(index: u32) -> (u32, u32, u16, u16) {
    let w1 = seq![(index as u64, 4u8)];
    let srcip = fx_finish(usize::BITS, w1) as u32;
    let w2 = w1.push((srcip as u64, 4u8));
    let dstip = fx_finish(usize::BITS, w2) as u32;
    let w3 = w2.push(((index as u16) as u64, 2u8));
    let srcport = fx_finish(usize::BITS, w3) as u16;
    let w4 = w3.push((srcport as u64, 2u8));
    let dstport = fx_finish(usize::BITS, w4) as u16;
    (srcip, dstip, srcport, dstport)
}

/// The 54 header bytes of a synthetic packet of `pkt_len` bytes: Ethernet
/// (destination 01:02:03:04:05:06, source 0a:0b:0c:0d:0f:0f, type IPv4),
/// IPv4 (version 4, 20-byte header, total length `pkt_len - 14`, protocol
/// TCP, the addresses of `t`), and TCP (the ports of `t`, 20-byte header).
/// Every other header field is zero.
pub open spec fn packet_header(pkt_len: u32, t: (u32, u32, u16, u16)) -> Seq<u8> {
    let ip_len = (pkt_len - 14) as u16;
    seq![1u8, 2, 3, 4, 5, 6, 0x0a, 0x0b, 0x0c, 0x0d, 0x0f, 0x0f, 0x08, 0x00]
        + seq![0x45u8, 0x00, (ip_len >> 8u16) as u8, (ip_len & 0xff) as u8, 0, 0, 0, 0, 0, 6, 0, 0]
        + ipv4_octets(t.0) + ipv4_octets(t.1)
        + seq![(t.2 >> 8u16) as u8, (t.2 & 0xff) as u8, (t.3 >> 8u16) as u8, (t.3 & 0xff) as u8]
        + seq![0u8, 0, 0, 0, 0, 0, 0, 0, 0x50, 0, 0, 0, 0, 0, 0, 0]
}

proof fn lemma_be16(x: u16)
    by (bit_vector)
    ensures
        ((x >> 8u16) as u8) as u32 * 256 + ((x & 0xff) as u8) as u32 == x as u32,
{
}

proof fn lemma_be32(ip: u32)
    by (bit_vector)
    ensures
        (((ip >> 24u32) & 0xff) as u8) as u64 * 0x100_0000 + (((ip >> 16u32) & 0xff) as u8) as u64
            * 0x1_0000 + (((ip >> 8u32) & 0xff) as u8) as u64 * 0x100 + ((ip & 0xff) as u8) as u64
            == ip as u64,
{
}

/// What the header of a synthetic packet holds, field by field: the two
/// Ethernet addresses and the IPv4 type, IPv4 version 4 with a 20-byte
/// header, the total length `pkt_len - 14` in big-endian order, protocol
/// TCP, the source and destination addresses and ports of `t` in
/// big-endian order, and a 20-byte TCP header.
pub proof fn lemma_packet_header_fields(pkt_len: u32, t: (u32, u32, u16, u16))
    requires
        14 <= pkt_len <= 14 + 0xffff,
    ensures
        packet_header(pkt_len, t).len() == HEADER_LEN,
        packet_header(pkt_len, t).subrange(0, 6) == seq![1u8, 2, 3, 4, 5, 6],
        packet_header(pkt_len, t).subrange(6, 12) == seq![0x0au8, 0x0b, 0x0c, 0x0d, 0x0f, 0x0f],
        packet_header(pkt_len, t)[12] == 0x08 && packet_header(pkt_len, t)[13] == 0x00,
        packet_header(pkt_len, t)[14] == 0x45,
        packet_header(pkt_len, t)[16] * 256 + packet_header(pkt_len, t)[17] == pkt_len - 14,
        packet_header(pkt_len, t)[23] == 6,
        packet_header(pkt_len, t)[26] * 0x100_0000 + packet_header(pkt_len, t)[27] * 0x1_0000
            + packet_header(pkt_len, t)[28] * 0x100 + packet_header(pkt_len, t)[29] == t.0,
        packet_header(pkt_len, t)[30] * 0x100_0000 + packet_header(pkt_len, t)[31] * 0x1_0000
            + packet_header(pkt_len, t)[32] * 0x100 + packet_header(pkt_len, t)[33] == t.1,
        packet_header(pkt_len, t)[34] * 256 + packet_header(pkt_len, t)[35] == t.2,
        packet_header(pkt_len, t)[36] * 256 + packet_header(pkt_len, t)[37] == t.3,
        packet_header(pkt_len, t)[46] == 0x50,
{
    let h = packet_header(pkt_len, t);
    let ip_len = (pkt_len - 14) as u16;
    assert(ip_len == pkt_len - 14);
    lemma_be16(ip_len);
    lemma_be16(t.2);
    lemma_be16(t.3);
    lemma_be32(t.0);
    lemma_be32(t.1);
    assert(h =~= seq![1u8, 2, 3, 4, 5, 6, 0x0a, 0x0b, 0x0c, 0x0d, 0x0f, 0x0f, 0x08, 0x00]
        + seq![0x45u8, 0x00, (ip_len >> 8u16) as u8, (ip_len & 0xff) as u8, 0, 0, 0, 0, 0, 6, 0, 0]
        + ipv4_octets(t.0) + ipv4_octets(t.1) + seq![
        (t.2 >> 8u16) as u8,
        (t.2 & 0xff) as u8,
        (t.3 >> 8u16) as u8,
        (t.3 & 0xff) as u8,
    ] + seq![0u8, 0, 0, 0, 0, 0, 0, 0, 0x50, 0, 0, 0, 0, 0, 0, 0]);
    assert(h[16] == (ip_len >> 8u16) as u8 && h[17] == (ip_len & 0xff) as u8);
    assert(h[26] == ((t.0 >> 24u32) & 0xff) as u8 && h[27] == ((t.0 >> 16u32) & 0xff) as u8
        && h[28] == ((t.0 >> 8u32) & 0xff) as u8 && h[29] == (t.0 & 0xff) as u8);
    assert(h[30] == ((t.1 >> 24u32) & 0xff) as u8 && h[31] == ((t.1 >> 16u32) & 0xff) as u8
        && h[32] == ((t.1 >> 8u32) & 0xff) as u8 && h[33] == (t.1 & 0xff) as u8);
    assert(h[34] == (t.2 >> 8u16) as u8 && h[35] == (t.2 & 0xff) as u8);
    assert(h[36] == (t.3 >> 8u16) as u8 && h[37] == (t.3 & 0xff) as u8);
    assert(h.subrange(0, 6) =~= seq![1u8, 2, 3, 4, 5, 6]);
    assert(h.subrange(6, 12) =~= seq![0x0au8, 0x0b, 0x0c, 0x0d, 0x0f, 0x0f]);
}

/// Big-endian order: the eight bytes, most significant first, put back
/// together give the number.
pub proof fn lemma_be_bytes_compose(r: u64)
    ensures
        be_byte(r, 0) as int * 0x100_0000_0000_0000 + be_byte(r, 1) as int * 0x1_0000_0000_0000
            + be_byte(r, 2) as int * 0x100_0000_0000 + be_byte(r, 3) as int * 0x1_0000_0000
            + be_byte(r, 4) as int * 0x100_0000 + be_byte(r, 5) as int * 0x1_0000 + be_byte(
            r,
            6,
        ) as int * 0x100 + be_byte(r, 7) as int == r,
{
    assert(((r >> 56u64) as u8) as u128 * 0x100_0000_0000_0000 + ((r >> 48u64) as u8) as u128
        * 0x1_0000_0000_0000 + ((r >> 40u64) as u8) as u128 * 0x100_0000_0000 + ((r >> 32u64)
        as u8) as u128 * 0x1_0000_0000 + ((r >> 24u64) as u8) as u128 * 0x100_0000 + ((r
        >> 16u64) as u8) as u128 * 0x1_0000 + ((r >> 8u64) as u8) as u128 * 0x100 + ((r >> 0u64)
        as u8) as u128 == r as u128) by (bit_vector);
}

/// The random fill lays the numbers out one after another: bytes `8 * i`
/// to `8 * i + 7` after its start are the eight bytes of the `(i + 1)`-th
/// number drawn, most significant first.
pub proof fn lemma_rand_fill_layout(seed: u64, i: int, j: int)
    requires
        0 <= i,
        0 <= j < 8,
    ensures
        rand_byte(seed, 8 * i + j) == be_byte(rand_after(seed, (i + 1) as nat), j as u64),
{
    assert((8 * i + j) / 8 == i && (8 * i + j) % 8 == j) by (nonlinear_arith)
        requires
            0 <= i,
            0 <= j < 8,
    ;
}

/// How many numbers the random fill draws: enough eight-byte numbers to fit
/// in any region of at least eight bytes, and more than the region holds
/// in 64-byte blocks.
pub proof fn lemma_fill_draws_fit(len: int)
    requires
        len >= 8,
    ensures
        8 * fill_draws(len) <= len,
        64 * fill_draws(len) > len,
{
    assert(8 * (len / 64 + 1) <= len && 64 * (len / 64 + 1) > len) by (nonlinear_arith)
        requires
            len >= 8,
    ;
}

/// The addresses and ports are the hasher's results, in turn, for the
/// index; the index and source address; then the 16-bit index; then the
/// source port: each cut to the width of its field.
pub proof fn lemma_five_tuple_chain(index: u32)
    ensures
        zipf_five_tuple(index).0 == fx_finish(usize::BITS, seq![(index as u64, 4u8)]) as u32,
        zipf_five_tuple(index).1 == fx_finish(
            usize::BITS,
            seq![(index as u64, 4u8), (zipf_five_tuple(index).0 as u64, 4u8)],
        ) as u32,
        zipf_five_tuple(index).2 == fx_finish(
            usize::BITS,
            seq![
                (index as u64, 4u8),
                (zipf_five_tuple(index).0 as u64, 4u8),
                ((index as u16) as u64, 2u8),
            ],
        ) as u16,
        zipf_five_tuple(index).3 == fx_finish(
            usize::BITS,
            seq![
                (index as u64, 4u8),
                (zipf_five_tuple(index).0 as u64, 4u8),
                ((index as u16) as u64, 2u8),
                (zipf_five_tuple(index).2 as u64, 2u8),
            ],
        ) as u16,
{
    let w1 = seq![(index as u64, 4u8)];
    let t = zipf_five_tuple(index);
    assert(w1.push((t.0 as u64, 4u8)) =~= seq![(index as u64, 4u8), (t.0 as u64, 4u8)]);
    assert(w1.push((t.0 as u64, 4u8)).push(((index as u16) as u64, 2u8)) =~= seq![
        (index as u64, 4u8),
        (t.0 as u64, 4u8),
        ((index as u16) as u64, 2u8),
    ]);
    assert(w1.push((t.0 as u64, 4u8)).push(((index as u16) as u64, 2u8)).push(
        (t.2 as u64, 2u8),
    ) =~= seq![
        (index as u64, 4u8),
        (t.0 as u64, 4u8),
        ((index as u16) as u64, 2u8),
        (t.2 as u64, 2u8),
    ]);
}

/// The payload of a synthetic packet of `pkt_len` bytes made with the
/// generator in state `seed`: the random fill over zeros.
pub open spec fn packet_payload(pkt_len: u32, seed: u64) -> Seq<u8> {
    let len = pkt_len - HEADER_LEN;
    Seq::new(
        len as nat,
        |k: int|
            if k < 8 * fill_draws(len) {
                rand_byte(seed, k)
            } else {
                0u8
            },
    )
}

/// The payload of a synthetic packet of `pkt_len` bytes is `pkt_len - 54`
/// bytes long; its first `8 * fill_draws` bytes are the numbers drawn from
/// `seed`, eight big-endian bytes each, and the rest are zero.
pub proof fn lemma_payload_layout(pkt_len: u32, seed: u64, i: int, j: int)
    requires
        HEADER_LEN + 8 <= pkt_len,
        0 <= i,
        0 <= j < 8,
    ensures
        packet_payload(pkt_len, seed).len() == pkt_len - HEADER_LEN,
        i < fill_draws(pkt_len - HEADER_LEN) ==> packet_payload(pkt_len, seed)[8 * i + j]
            == be_byte(rand_after(seed, (i + 1) as nat), j as u64),
        forall|k: int|
            8 * fill_draws(pkt_len - HEADER_LEN) <= k < pkt_len - HEADER_LEN ==> #[trigger] packet_payload(
                pkt_len,
                seed,
            )[k] == 0,
{
    lemma_fill_draws_fit(pkt_len - HEADER_LEN);
    lemma_rand_fill_layout(seed, i, j);
    if i < fill_draws(pkt_len - HEADER_LEN) {
        assert(8 * i + j < 8 * fill_draws(pkt_len - HEADER_LEN)) by (nonlinear_arith)
            requires
                i < fill_draws(pkt_len - HEADER_LEN),
                0 <= j < 8,
        ;
    }
}

impl MBuf {
    /// Fills `buf[start..]` with pseudo-random bytes: draws `fill_draws` of
    /// its length numbers from `rng` (one for each whole 64 bytes, and one
    /// more) and writes the eight big-endian bytes of each after those of the
    /// one before. Bytes past the last number written keep their value. The
    /// region must hold at least eight bytes: a shorter one cannot take the
    /// first number.
    pub fn get_rand_str(buf: &mut Vec<u8>, start: usize, rng: &mut myrand)
        requires
            start + 8 <= old(buf)@.len(),
        ensures
            final(buf)@.len() == old(buf)@.len(),
            final(rng).holdrand == rand_after(
                old(rng).holdrand,
                fill_draws(old(buf)@.len() - start) as nat,
            ),
            forall|i: int|
                0 <= i < old(buf)@.len() ==> #[trigger] final(buf)@[i] == if start <= i < start + 8
                    * fill_draws(old(buf)@.len() - start) {
                    rand_byte(old(rng).holdrand, i - start)
                } else {
                    old(buf)@[i]
                },
    {
        let ghost seed = rng.holdrand;
        let ghost old_buf = buf@;
        let payload_len = buf.len() - start;
        assert(old_buf.len() <= usize::MAX);
        let draws = payload_len / 64 + 1;
        assert(8 * draws <= payload_len) by (nonlinear_arith)
            requires
                payload_len >= 8,
                draws == payload_len / 64 + 1,
        ;
        let mut i: usize = 0;
        while i < draws
            invariant
                buf@.len() == old_buf.len(),
                old_buf.len() <= usize::MAX,
                payload_len == old_buf.len() - start,
                draws == fill_draws(payload_len as int),
                8 * draws <= payload_len,
                i <= draws,
                rng.holdrand == rand_after(seed, i as nat),
                forall|k: int|
                    0 <= k < buf@.len() ==> #[trigger] buf@[k] == if start <= k < start + 8 * i {
                        rand_byte(seed, k - start)
                    } else {
                        old_buf[k]
                    },
            decreases draws - i,
        {
            let r = rng.rand();
            assert(rand_after(seed, (i + 1) as nat) == r);
            assert(8 * (i + 1) <= 8 * draws) by (nonlinear_arith)
                requires
                    i < draws,
            ;
            let base = start + 8 * i;
            let mut j: usize = 0;
            while j < 8
                invariant
                    buf@.len() == old_buf.len(),
                    old_buf.len() <= usize::MAX,
                    base == start + 8 * i,
                    i < draws,
                    8 * (i + 1) <= payload_len,
                    payload_len == old_buf.len() - start,
                    r == rand_after(seed, (i + 1) as nat),
                    j <= 8,
                    forall|k: int|
                        0 <= k < buf@.len() ==> #[trigger] buf@[k] == if start <= k < base {
                            rand_byte(seed, k - start)
                        } else if base <= k < base + j {
                            be_byte(r, (k - base) as u64)
                        } else {
                            old_buf[k]
                        },
                decreases 8 - j,
            {
                buf[base + j] = #[verifier::truncate] ((r >> (56 - 8 * j as u64)) as u8);
                j += 1;
            }
            assert forall|k: int| 0 <= k < buf@.len() implies #[trigger] buf@[k] == if start <= k
                < start + 8 * (i + 1) {
                rand_byte(seed, k - start)
            } else {
                old_buf[k]
            } by {
                if base <= k < base + 8 {
                    assert((k - start) / 8 == i && (k - start) % 8 == k - base) by (nonlinear_arith)
                        requires
                            k - start == 8 * i + (k - base),
                            0 <= k - base < 8,
                    ;
                }
            }
            i += 1;
        }
    }

    /// The four octets of the IPv4 address `ip`, most significant first.
    pub fn get_ipv4addr_from_u32(ip: u32) -> (r: [u8; 4])
        ensures
            r@ == ipv4_octets(ip),
    {
        let r = [
            ((ip >> 24u32) & 0xff) as u8,
            ((ip >> 16u32) & 0xff) as u8,
            ((ip >> 8u32) & 0xff) as u8,
            (ip & 0xff) as u8,
        ];
        assert(r@ =~= ipv4_octets(ip));
        r
    }

    /// The source and destination addresses and ports for the Zipf index
    /// `index`; see `zipf_five_tuple`.
    pub fn get_zipf_five_tuples(index: u32) -> (r: (u32, u32, u16, u16))
        ensures
            r == zipf_five_tuple(index),
    {
        let mut hasher = FxState::new();
        hasher.write_u32(index);
        let srcip = hasher.finish() as u32;
        hasher.write_u32(srcip);
        let dstip = hasher.finish() as u32;
        hasher.write_u16(index as u16);
        let srcport = hasher.finish() as u16;
        hasher.write_u16(srcport);
        let dstport = hasher.finish() as u16;
        (srcip, dstip, srcport, dstport)
    }
    /// A synthetic packet of `pkt_len` bytes before its headers are written:
    /// 54 zero bytes, then the payload filled from `rng`. The data window
    /// covers the whole buffer.
    pub fn with_payload(pkt_len: u32, rng: &mut myrand) -> (r: MBuf)
        requires
            HEADER_LEN + 8 <= pkt_len <= MAX_MBUF_SIZE,
        ensures
            r.wf(),
            r.data_off == 0,
            r.pkt_len == pkt_len,
            r.data_len == pkt_len,
            r.buf_len == pkt_len,
            r@.bytes == Seq::new(HEADER_LEN as nat, |k: int| 0u8) + packet_payload(
                pkt_len,
                old(rng).holdrand,
            ),
            final(rng).holdrand == rand_after(
                old(rng).holdrand,
                fill_draws(pkt_len - HEADER_LEN) as nat,
            ),
    {
        let ghost seed = rng.holdrand;
        let mut buf: Vec<u8> = vec![0u8; pkt_len as usize];
        Self::get_rand_str(&mut buf, HEADER_LEN, rng);
        assert(buf@ =~= Seq::new(HEADER_LEN as nat, |k: int| 0u8) + packet_payload(pkt_len, seed));
        MBuf {
            buffer: buf,
            data_off: 0,
            pkt_len: pkt_len,
            data_len: pkt_len as u16,
            buf_len: pkt_len as u16,
        }
    }

    /// Writes the Ethernet, IPv4 and TCP headers of a synthetic packet at the
    /// front of the buffer, with the addresses and ports derived from the
    /// Zipf index `zipf_index` and the lengths taken from `pkt_len`. The rest
    /// of the buffer and the window are left as they are.
    pub fn write_headers(&mut self, zipf_index: u32)
        requires
            old(self).wf(),
            HEADER_LEN <= old(self).buf_len,
            14 <= old(self).pkt_len,
        ensures
            final(self).wf(),
            final(self)@ == (MBufView {
                bytes: packet_header(old(self).pkt_len, zipf_five_tuple(zipf_index))
                    + old(self)@.bytes.subrange(HEADER_LEN as int, old(self)@.bytes.len() as int),
                ..old(self)@
            }),
    {
        let (srcip, dstip, srcport, dstport) = Self::get_zipf_five_tuples(zipf_index);
        let src = Self::get_ipv4addr_from_u32(srcip);
        let dst = Self::get_ipv4addr_from_u32(dstip);
        let ip_len: u16 = #[verifier::truncate] ((self.pkt_len - 14) as u16);
        let header: Vec<u8> = vec![
            1u8, 2, 3, 4, 5, 6, 0x0a, 0x0b, 0x0c, 0x0d, 0x0f, 0x0f, 0x08, 0x00,
            0x45, 0x00, (ip_len >> 8u16) as u8, (ip_len & 0xff) as u8, 0, 0, 0, 0, 0, 6, 0, 0,
            src[0], src[1], src[2], src[3], dst[0], dst[1], dst[2], dst[3],
            (srcport >> 8u16) as u8, (srcport & 0xff) as u8,
            (dstport >> 8u16) as u8, (dstport & 0xff) as u8,
            0, 0, 0, 0, 0, 0, 0, 0, 0x50, 0, 0, 0, 0, 0, 0, 0,
        ];
        assert(header@ =~= packet_header(self.pkt_len, zipf_five_tuple(zipf_index)));
        let ghost filled = self.buffer@;
        let mut i: usize = 0;
        while i < HEADER_LEN
            invariant
                i <= HEADER_LEN,
                HEADER_LEN <= self.buf_len,
                self.buffer@.len() == self.buf_len,
                header@.len() == HEADER_LEN,
                filled.len() == self.buf_len,
                self.data_off == old(self).data_off,
                self.data_len == old(self).data_len,
                self.pkt_len == old(self).pkt_len,
                self.buf_len == old(self).buf_len,
                filled == old(self).buffer@,
                forall|k: int| 0 <= k < i ==> #[trigger] self.buffer@[k] == header@[k],
                forall|k: int| i <= k < filled.len() ==> #[trigger] self.buffer@[k] == filled[k],
            decreases HEADER_LEN - i,
        {
            self.buffer[i] = header[i];
            i += 1;
        }
        assert(self.buffer@ =~= packet_header(self.pkt_len, zipf_five_tuple(zipf_index))
            + filled.subrange(HEADER_LEN as int, filled.len() as int));
    }

    /// Synthetic packet generator: a packet of `pkt_len` bytes whose payload
    /// is filled from `rng` and whose headers carry the addresses and ports
    /// derived from the Zipf index `zipf_index`. The data window covers the
    /// whole buffer. (`with_payload` and `write_headers` do the same in two
    /// steps, so that the index can be drawn after the payload.)
    pub fn new(pkt_len: u32, rng: &mut myrand, zipf_index: u32) -> (r: MBuf)
        requires
            HEADER_LEN + 8 <= pkt_len <= MAX_MBUF_SIZE,
        ensures
            r.wf(),
            r.data_off == 0,
            r.pkt_len == pkt_len,
            r.data_len == pkt_len,
            r.buf_len == pkt_len,
            r@.bytes == packet_header(pkt_len, zipf_five_tuple(zipf_index)) + packet_payload(
                pkt_len,
                old(rng).holdrand,
            ),
            final(rng).holdrand == rand_after(
                old(rng).holdrand,
                fill_draws(pkt_len - HEADER_LEN) as nat,
            ),
    {
        let ghost seed = rng.holdrand;
        let mut m = Self::with_payload(pkt_len, rng);
        m.write_headers(zipf_index);
        let ghost zeros = Seq::new(HEADER_LEN as nat, |k: int| 0u8);
        assert((zeros + packet_payload(pkt_len, seed)).subrange(HEADER_LEN as int, pkt_len as int)
            =~= packet_payload(pkt_len, seed));
        m
    }
}

} // verus!
