//! The MAC-swap network function applied to each received packet.
use vstd::prelude::*;
use crate::mbuf::MBuf;

verus! {

/// The length of an Ethernet header.
pub const ETHERNET_HEADER_LEN: u16 = 14;

/// Why a packet could not be handled as an Ethernet frame.
#[derive(Debug, Clone, Copy, PartialEq, Eq, Structural)]
pub enum PacketError {
    /// The packet's data is shorter than an Ethernet header.
    TooShort,
}

/// Reads the packet as an Ethernet frame and exchanges its destination and
/// source addresses. A packet whose data is shorter than an Ethernet header
/// is refused, unchanged in the error's place.
pub fn macswap(packet: MBuf) -> (r: Result<MBuf, PacketError>)
    requires
        packet.wf(),
    ensures
        packet.data_len < ETHERNET_HEADER_LEN ==> r == Err::<MBuf, PacketError>(
            PacketError::TooShort,
        ),
        packet.data_len >= ETHERNET_HEADER_LEN ==> (r matches Ok(m) && m.wf() && m@
            == packet@.swap_macs()),
        packet.data_len >= ETHERNET_HEADER_LEN ==> (r matches Ok(m) && m.data_off
            == packet.data_off && m.data_len == packet.data_len && m.pkt_len == packet.pkt_len
            && m.buffer@.len() == packet.buffer@.len() && (forall|i: int|
            0 <= i < 6 ==> #[trigger] m.buffer@[packet.data_off + i] == packet.buffer@[
                packet.data_off + 6 + i]) && (forall|i: int|
            0 <= i < 6 ==> #[trigger] m.buffer@[packet.data_off + 6 + i] == packet.buffer@[
                packet.data_off + i])),
{
    if packet.data_len < ETHERNET_HEADER_LEN {
        return Err(PacketError::TooShort);
    }
    let mut ethernet = packet;
    ethernet.swap_mac_addresses();
    Ok(ethernet)
}

} // verus!
