//! Packet buffers: a byte buffer with a window of packet data in it, and the
//! operations that grow and shrink that window at either end.
use vstd::prelude::*;

verus! {

/// The largest packet that a buffer is made for.
pub const MAX_MBUF_SIZE: u16 = 2048;

/// The length of the synthetic packets that the generator makes.
pub const PKT_LEN: u32 = 1024;

/// What a packet buffer is: its bytes, the window `data_off .. data_off +
/// data_len` of packet data in them, and the length of the whole packet,
/// which counts the data of other segments too.
#[verifier::ext_equal]
pub struct MBufView {
    pub data_off: int,
    pub data_len: int,
    pub pkt_len: int,
    pub buf_len: int,
    pub bytes: Seq<u8>,
}

impl MBufView {
    /// The window lies inside the buffer, the buffer fits its `u16` length,
    /// this segment's data is part of the packet, and the packet length stays
    /// within `u32` however far this segment's window grows.
    pub open spec fn wf(self) -> bool {
        &&& 0 <= self.data_off
        &&& 0 <= self.data_len
        &&& self.data_off + self.data_len <= self.buf_len
        &&& self.buf_len <= u16::MAX
        &&& self.data_len <= self.pkt_len
        &&& self.pkt_len - self.data_len + self.buf_len <= u32::MAX
        &&& self.bytes.len() == self.buf_len
    }

    /// Room before the data.
    pub open spec fn headroom(self) -> int {
        self.data_off
    }

    /// Room after the data.
    pub open spec fn tailroom(self) -> int {
        self.buf_len - self.data_off - self.data_len
    }

    /// The packet data held in this segment.
    pub open spec fn data(self) -> Seq<u8> {
        self.bytes.subrange(self.data_off, self.data_off + self.data_len)
    }

    /// Grows the window by `len` bytes at its front, or leaves the buffer as
    /// it is when the headroom is smaller than `len`.
    pub open spec fn add_beginning(self, len: int) -> MBufView {
        if len <= self.headroom() {
            MBufView {
                data_off: self.data_off - len,
                data_len: self.data_len + len,
                pkt_len: self.pkt_len + len,
                ..self
            }
        } else {
            self
        }
    }

    /// Grows the window by `len` bytes at its end, or leaves the buffer as it
    /// is when the tailroom is smaller than `len`.
    pub open spec fn add_end(self, len: int) -> MBufView {
        if len <= self.tailroom() {
            MBufView { data_len: self.data_len + len, pkt_len: self.pkt_len + len, ..self }
        } else {
            self
        }
    }

    /// Shrinks the window by `len` bytes at its front, or leaves the buffer
    /// as it is when it holds fewer than `len` bytes of data.
    pub open spec fn remove_beginning(self, len: int) -> MBufView {
        if len <= self.data_len {
            MBufView {
                data_off: self.data_off + len,
                data_len: self.data_len - len,
                pkt_len: self.pkt_len - len,
                ..self
            }
        } else {
            self
        }
    }

    /// Shrinks the window by `len` bytes at its end, or leaves the buffer as
    /// it is when it holds fewer than `len` bytes of data.
    pub open spec fn remove_end(self, len: int) -> MBufView {
        if len <= self.data_len {
            MBufView { data_len: self.data_len - len, pkt_len: self.pkt_len - len, ..self }
        } else {
            self
        }
    }
    /// The buffer with the two six-byte addresses at the front of the data
    /// (an Ethernet header's destination and source) exchanged.
    pub open spec fn swap_macs(self) -> MBufView {
        let d = self.data_off;
        MBufView {
            bytes: Seq::new(
                self.bytes.len(),
                |k: int|
                    if d <= k < d + 6 {
                        self.bytes[k + 6]
                    } else if d + 6 <= k < d + 12 {
                        self.bytes[k - 6]
                    } else {
                        self.bytes[k]
                    },
            ),
            ..self
        }
    }
}

/// Headroom, data and tailroom together make up the whole buffer.
pub proof fn lemma_rooms_partition_buffer(v: MBufView)
    requires
        v.wf(),
    ensures
        v.headroom() + v.data_len + v.tailroom() == v.buf_len,
        v.headroom() >= 0,
        v.tailroom() >= 0,
{
}

/// Growing or shrinking the window never changes the bytes, the buffer's
/// size, or how much of the packet lies outside this segment, and keeps the
/// buffer well formed.
pub proof fn lemma_window_ops_keep_buffer(v: MBufView, len: int)
    requires
        v.wf(),
        0 <= len,
    ensures
        v.add_beginning(len).wf(),
        v.add_end(len).wf(),
        v.remove_beginning(len).wf(),
        v.remove_end(len).wf(),
        v.add_beginning(len).bytes == v.bytes,
        v.add_end(len).bytes == v.bytes,
        v.remove_beginning(len).bytes == v.bytes,
        v.remove_end(len).bytes == v.bytes,
        v.add_beginning(len).buf_len == v.buf_len,
        v.add_end(len).buf_len == v.buf_len,
        v.remove_beginning(len).buf_len == v.buf_len,
        v.remove_end(len).buf_len == v.buf_len,
        v.add_beginning(len).pkt_len - v.add_beginning(len).data_len == v.pkt_len - v.data_len,
        v.add_end(len).pkt_len - v.add_end(len).data_len == v.pkt_len - v.data_len,
        v.remove_beginning(len).pkt_len - v.remove_beginning(len).data_len == v.pkt_len
            - v.data_len,
        v.remove_end(len).pkt_len - v.remove_end(len).data_len == v.pkt_len - v.data_len,
{
}

/// Adding `len` bytes at the front and then removing `len` bytes from the
/// front gives back the buffer one started with; so does the same at the end.
pub proof fn lemma_add_then_remove_restores(v: MBufView, len: int)
    requires
        v.wf(),
        0 <= len,
    ensures
        len <= v.headroom() ==> v.add_beginning(len).remove_beginning(len) == v,
        len <= v.tailroom() ==> v.add_end(len).remove_end(len) == v,
{
}

/// Removing `len` bytes of data from the front and then adding `len` bytes at
/// the front gives back the buffer one started with; so does the same at the
/// end.
pub proof fn lemma_remove_then_add_restores(v: MBufView, len: int)
    requires
        v.wf(),
        0 <= len <= v.data_len,
    ensures
        v.remove_beginning(len).add_beginning(len) == v,
        v.remove_end(len).add_end(len) == v,
{
}

/// A request that does not fit changes nothing.
pub proof fn lemma_refused_requests_change_nothing(v: MBufView, len: int)
    requires
        v.wf(),
    ensures
        len > v.headroom() ==> v.add_beginning(len) == v,
        len > v.tailroom() ==> v.add_end(len) == v,
        len > v.data_len ==> v.remove_beginning(len) == v && v.remove_end(len) == v,
{
}

/// How the packet data changes: growing at the front puts the `len` bytes
/// before the old data in front of it, growing at the end appends the `len`
/// bytes after it, and shrinking drops `len` bytes from the front or the end.
pub proof fn lemma_window_ops_data(v: MBufView, len: int)
    requires
        v.wf(),
        0 <= len,
    ensures
        len <= v.headroom() ==> v.add_beginning(len).data() == v.bytes.subrange(
            v.data_off - len,
            v.data_off,
        ) + v.data(),
        len <= v.tailroom() ==> v.add_end(len).data() == v.data() + v.bytes.subrange(
            v.data_off + v.data_len,
            v.data_off + v.data_len + len,
        ),
        len <= v.data_len ==> v.remove_beginning(len).data() == v.data().subrange(
            len,
            v.data_len,
        ),
        len <= v.data_len ==> v.remove_end(len).data() == v.data().subrange(0, v.data_len - len),
{
    if len <= v.headroom() {
        assert(v.add_beginning(len).data() =~= v.bytes.subrange(v.data_off - len, v.data_off)
            + v.data());
    }
    if len <= v.tailroom() {
        assert(v.add_end(len).data() =~= v.data() + v.bytes.subrange(
            v.data_off + v.data_len,
            v.data_off + v.data_len + len,
        ));
    }
    if len <= v.data_len {
        assert(v.remove_beginning(len).data() =~= v.data().subrange(len, v.data_len));
        assert(v.remove_end(len).data() =~= v.data().subrange(0, v.data_len - len));
    }
}

/// Exchanging the two addresses twice gives back the buffer; exchanging them
/// once changes only those twelve bytes and keeps the buffer well formed.
pub proof fn lemma_swap_macs_involutive(v: MBufView)
    requires
        v.wf(),
        v.data_len >= 12,
    ensures
        v.swap_macs().swap_macs() == v,
        v.swap_macs().wf(),
        v.swap_macs().data_off == v.data_off && v.swap_macs().data_len == v.data_len,
        forall|k: int|
            0 <= k < v.buf_len && !(v.data_off <= k < v.data_off + 12) ==> #[trigger] v.swap_macs().bytes[k]
                == v.bytes[k],
{
    assert(v.swap_macs().swap_macs().bytes =~= v.bytes);
}

/// Swapping exchanges the two addresses, whatever the length of the data:
/// the first six data bytes become the next six, and the next six become the
/// first six.
pub proof fn lemma_swap_macs_exchanges(v: MBufView, i: int)
    requires
        v.wf(),
        v.data_len >= 12,
        0 <= i < 6,
    ensures
        v.swap_macs().bytes.len() == v.bytes.len(),
        v.swap_macs().bytes[v.data_off + i] == v.bytes[v.data_off + 6 + i],
        v.swap_macs().bytes[v.data_off + 6 + i] == v.bytes[v.data_off + i],
        v.swap_macs().data() == v.data().subrange(6, 12) + v.data().subrange(0, 6)
            + v.data().subrange(12, v.data_len),
{
    assert(v.swap_macs().data() =~= v.data().subrange(6, 12) + v.data().subrange(0, 6)
        + v.data().subrange(12, v.data_len));
}

/// A packet buffer of one segment.
#[allow(non_camel_case_types)]
pub struct rte_mbuf {
    /// The bytes of the buffer, headroom and tailroom included.
    pub buffer: Vec<u8>,
    pub data_off: u16,
    pub pkt_len: u32,
    pub data_len: u16,
    pub buf_len: u16,
}

/// The name the framework uses for a packet buffer.
pub type MBuf = rte_mbuf;

impl View for MBuf {
    type V = MBufView;

    open spec fn view(&self) -> MBufView {
        MBufView {
            data_off: self.data_off as int,
            data_len: self.data_len as int,
            pkt_len: self.pkt_len as int,
            buf_len: self.buf_len as int,
            bytes: self.buffer@,
        }
    }
}

impl MBuf {
    /// The buffer is well formed: see `MBufView::wf`.
    pub open spec fn wf(&self) -> bool {
        self@.wf()
    }

    /// The bytes of the buffer, headroom and tailroom included.
    pub fn as_bytes(&self) -> (r: &[u8])
        ensures
            r@ == self@.bytes,
    {
        self.buffer.as_slice()
    }

    /// The index in `as_bytes()` of the byte `offset` bytes into the data.
    pub fn data_address(&self, offset: usize) -> (r: usize)
        requires
            self.data_off + offset <= usize::MAX,
        ensures
            r == self.data_off + offset,
    {
        self.data_off as usize + offset
    }

    /// Returns the total allocated size of this mbuf segment.
    /// This is a constant.
    pub fn buf_len(&self) -> (r: usize)
        ensures
            r == self.buf_len,
    {
        self.buf_len as usize
    }

    /// Returns the length of data in this mbuf segment.
    pub fn data_len(&self) -> (r: usize)
        ensures
            r == self.data_len,
    {
        self.data_len as usize
    }

    /// Returns the size of the packet (across multiple mbuf segment).
    pub fn pkt_len(&self) -> (r: usize)
        ensures
            r == self.pkt_len,
    {
        self.pkt_len as usize
    }

    /// Room before the data.
    pub fn pkt_headroom(&self) -> (r: usize)
        ensures
            r == self@.headroom(),
    {
        self.data_off as usize
    }

    /// Room after the data.
    pub fn pkt_tailroom(&self) -> (r: usize)
        requires
            self.data_off + self.data_len <= self.buf_len,
        ensures
            r == self@.tailroom(),
    {
        self.buf_len() - self.data_off as usize - self.data_len()
    }

    /// Add data to the beginning of the packet. This might fail (i.e., return
    /// 0) when no more headroom is left.
    pub fn add_data_beginning(&mut self, len: usize) -> (r: usize)
        requires
            old(self).wf(),
        ensures
            final(self).wf(),
            final(self)@ == old(self)@.add_beginning(len as int),
            r == (if len <= old(self)@.headroom() { len } else { 0 }),
    {
        if len > self.pkt_headroom() {
            0
        } else {
            self.data_off = self.data_off - len as u16;
            self.data_len = self.data_len + len as u16;
            self.pkt_len = self.pkt_len + len as u32;
            len
        }
    }

    /// Add data to the end of a packet buffer. This might fail (i.e., return
    /// 0) when no more tailroom is left. We do not currently deal with packet
    /// with multiple segments.
    pub fn add_data_end(&mut self, len: usize) -> (r: usize)
        requires
            old(self).wf(),
        ensures
            final(self).wf(),
            final(self)@ == old(self)@.add_end(len as int),
            r == (if len <= old(self)@.tailroom() { len } else { 0 }),
    {
        if len > self.pkt_tailroom() {
            0
        } else {
            self.data_len = self.data_len + len as u16;
            self.pkt_len = self.pkt_len + len as u32;
            len
        }
    }

    /// Removes `len` bytes from the beginning of the data; returns 0 and
    /// changes nothing when the segment holds fewer than `len` bytes of data.
    pub fn remove_data_beginning(&mut self, len: usize) -> (r: usize)
        requires
            old(self).wf(),
        ensures
            final(self).wf(),
            final(self)@ == old(self)@.remove_beginning(len as int),
            r == (if len <= old(self).data_len { len } else { 0 }),
    {
        if len > self.data_len() {
            0
        } else {
            self.data_off = self.data_off + len as u16;
            self.data_len = self.data_len - len as u16;
            self.pkt_len = self.pkt_len - len as u32;
            len
        }
    }

    /// Removes `len` bytes from the end of the data; returns 0 and changes
    /// nothing when the segment holds fewer than `len` bytes of data.
    pub fn remove_data_end(&mut self, len: usize) -> (r: usize)
        requires
            old(self).wf(),
        ensures
            final(self).wf(),
            final(self)@ == old(self)@.remove_end(len as int),
            r == (if len <= old(self).data_len { len } else { 0 }),
    {
        if len > self.data_len() {
            0
        } else {
            self.data_len = self.data_len - len as u16;
            self.pkt_len = self.pkt_len - len as u32;
            len
        }
    }

    /// Exchanges the first six bytes of the data with the next six: the
    /// destination and source addresses of an Ethernet header.
    pub fn swap_mac_addresses(&mut self)
        requires
            old(self).wf(),
            old(self).data_len >= 12,
        ensures
            final(self).wf(),
            final(self)@ == old(self)@.swap_macs(),
            final(self).buffer@.len() == old(self).buffer@.len(),
            forall|i: int|
                0 <= i < 6 ==> #[trigger] final(self).buffer@[old(self).data_off + i]
                    == old(self).buffer@[old(self).data_off + 6 + i],
            forall|i: int|
                0 <= i < 6 ==> #[trigger] final(self).buffer@[old(self).data_off + 6 + i]
                    == old(self).buffer@[old(self).data_off + i],
            forall|k: int|
                0 <= k < old(self).buffer@.len() && !(old(self).data_off <= k < old(self).data_off
                    + 12) ==> #[trigger] final(self).buffer@[k] == old(self).buffer@[k],
    {
        let d = self.data_off as usize;
        let ghost orig = self.buffer@;
        let mut i: usize = 0;
        while i < 6
            invariant
                i <= 6,
                d == self.data_off,
                self.data_off == old(self).data_off,
                self.data_len == old(self).data_len,
                self.pkt_len == old(self).pkt_len,
                self.buf_len == old(self).buf_len,
                orig == old(self).buffer@,
                d + 12 <= self.buffer@.len(),
                self.buffer@.len() == orig.len(),
                forall|k: int|
                    0 <= k < orig.len() ==> #[trigger] self.buffer@[k] == if d <= k < d + i {
                        orig[k + 6]
                    } else if d + 6 <= k < d + 6 + i {
                        orig[k - 6]
                    } else {
                        orig[k]
                    },
            decreases 6 - i,
        {
            let a = self.buffer[d + i];
            let b = self.buffer[d + 6 + i];
            self.buffer[d + i] = b;
            self.buffer[d + 6 + i] = a;
            i += 1;
        }
        assert(self.buffer@ =~= old(self)@.swap_macs().bytes);
    }

    /// The reference count of the buffer: a buffer here always has exactly
    /// one owner.
    pub fn refcnt(&self) -> (r: u16)
        ensures
            r == 1,
    {
        1
    }

    /// Takes a further reference to the buffer; with one owner per buffer,
    /// this changes nothing.
    pub fn reference(&mut self)
        ensures
            final(self)@ == old(self)@,
    {
    }
}

} // verus!
