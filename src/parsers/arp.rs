use vstd::prelude::*;

use super::{
    arp_hw_size, arp_proto_size, decode_frame, dissect, is_arp_frame, MIN_ARP_FRAME_LEN,
};
use crate::capture::device_info::DeviceInfo;

verus! {

/// The ARP dissector: the sender's hardware address (first 6 bytes) and IPv4
/// address (first 4 bytes of the protocol address) make one record. Opcode and
/// target fields are not read; frames whose sender address lengths are under 6
/// and 4 bytes are skipped.
pub fn handle_arp(packet: &[u8]) -> (r: Option<DeviceInfo>)
    ensures
        is_arp_frame(packet@) ==> (r matches Some(d) ==> dissect(packet@) == Some(d@)),
        is_arp_frame(packet@) ==> (r is None ==> dissect(packet@) is None),
        r matches Some(d) ==> d@.wf() && d@.mac_addr is Some && d@.ipv4_addrs.len() == 1,
        packet@.len() < MIN_ARP_FRAME_LEN ==> r is None,
{
    let headers = match decode_frame(packet) {
        Some(h) => h,
        None => return None,
    };
    let arp = match headers.arp {
        Some(a) => a,
        None => return None,
    };
    let sender_hw_addr = &arp.sender_hw_addr;
    let sender_proto_addr = &arp.sender_protocol_addr;
    if sender_hw_addr.len() < 6 || sender_proto_addr.len() < 4 {
        return None;
    }
    let mac_arr: [u8; 6] = [
        sender_hw_addr[0],
        sender_hw_addr[1],
        sender_hw_addr[2],
        sender_hw_addr[3],
        sender_hw_addr[4],
        sender_hw_addr[5],
    ];
    let ipv4_arr: [u8; 4] = [
        sender_proto_addr[0],
        sender_proto_addr[1],
        sender_proto_addr[2],
        sender_proto_addr[3],
    ];
    let mut info = DeviceInfo::new().set_mac(mac_arr);
    info.add_ipv4(ipv4_arr);
    proof {
        if is_arp_frame(packet@) {
            assert(arp_hw_size(packet@) >= 6 && arp_proto_size(packet@) >= 4);
            assert(info@.ipv4_addrs =~= dissect(packet@)->0.ipv4_addrs);
            assert(info@.ipv6_addrs =~= dissect(packet@)->0.ipv6_addrs);
        }
    }
    Some(info)
}

} // verus!
