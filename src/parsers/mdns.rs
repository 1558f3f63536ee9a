use vstd::prelude::*;

verus! {

/// The IPv4 multicast group that mDNS traffic is addressed to.
pub const MDNS_MULTICAST: [u8; 4] = [224, 0, 0, 251];

/// The UDP port of mDNS.
pub const MDNS_PORT: u16 = 5353;

/// The destination address field of an IPv4 header at the start of `packet`
/// (bytes 16 to 19), if the packet is long enough to hold it.
pub fn extract_destination_ip(packet: &[u8]) -> (r: Option<[u8; 4]>)
    ensures
        packet@.len() < 20 ==> r is None,
        packet@.len() >= 20 ==> r == Some([packet@[16], packet@[17], packet@[18], packet@[19]]),
{
    if packet.len() >= 20 {
        Some([packet[16], packet[17], packet[18], packet[19]])
    } else {
        None
    }
}

/// The packet is addressed to the mDNS multicast group.
pub fn is_mdns_destination(packet: &[u8]) -> (r: bool)
    ensures
        r == (packet@.len() >= 20 && packet@[16] == 224 && packet@[17] == 0 && packet@[18] == 0
            && packet@[19] == 251),
{
    match extract_destination_ip(packet) {
        Some(ip) => ip[0] == MDNS_MULTICAST[0] && ip[1] == MDNS_MULTICAST[1] && ip[2]
            == MDNS_MULTICAST[2] && ip[3] == MDNS_MULTICAST[3],
        None => false,
    }
}

} // verus!
