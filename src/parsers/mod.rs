use vstd::prelude::*;

use crate::capture::device_info::{vendor_of, DeviceInfo, DeviceInfoView};
use etherparse::{LinkHeader, NetHeaders};

pub mod arp;
pub mod mdns;

verus! {

/// The EtherType value that announces an ARP payload.
pub const ETHER_TYPE_ARP: u16 = 0x0806;

/// Length of an Ethernet II header.
pub const ETHERNET_HEADER_LEN: usize = 14;

/// Length of the shortest ARP-over-Ethernet frame that carries a 6-byte
/// hardware address and a 4-byte protocol address for sender and target.
pub const MIN_ARP_FRAME_LEN: usize = 42;

/// The EtherType that the Ethernet II header of `f` declares (big-endian).
pub open spec fn ether_type_of(f: Seq<u8>) -> int {
    f[12] as int * 256 + f[13] as int
}

/// Declared ARP hardware-address length (first byte after the fixed ARP words).
pub open spec fn arp_hw_size(f: Seq<u8>) -> int {
    f[18] as int
}

/// Declared ARP protocol-address length.
pub open spec fn arp_proto_size(f: Seq<u8>) -> int {
    f[19] as int
}

/// The frame is long enough for the ARP packet that its header declares.
pub open spec fn arp_complete(f: Seq<u8>) -> bool {
    &&& f.len() >= 22
    &&& f.len() >= 22 + 2 * arp_hw_size(f) + 2 * arp_proto_size(f)
}

/// The Ethernet II frame announces ARP.
pub open spec fn is_arp_frame(f: Seq<u8>) -> bool {
    f.len() >= ETHERNET_HEADER_LEN && ether_type_of(f) == ETHER_TYPE_ARP as int
}

/// An ARP frame whose sender pair is an Ethernet address and an IPv4 address.
pub open spec fn is_arp_signal(f: Seq<u8>) -> bool {
    &&& is_arp_frame(f)
    &&& arp_complete(f)
    &&& arp_hw_size(f) >= 6
    &&& arp_proto_size(f) >= 4
}

/// The sender hardware address of an ARP frame.
pub open spec fn arp_sender_mac(f: Seq<u8>) -> [u8; 6] {
    [f[22], f[23], f[24], f[25], f[26], f[27]]
}

/// The first four bytes of the sender protocol address of an ARP frame.
pub open spec fn arp_sender_ipv4(f: Seq<u8>) -> [u8; 4] {
    let o = 22 + arp_hw_size(f);
    [f[o], f[o + 1], f[o + 2], f[o + 3]]
}

/// The record that a frame yields: for an ARP frame with a usable sender
/// pair, the sender's hardware address with its vendor label and the one IPv4
/// address; for any other frame, nothing.
pub open spec fn dissect(f: Seq<u8>) -> Option<DeviceInfoView> {
    if is_arp_signal(f) {
        Some(
            DeviceInfoView {
                mac_vendor: vendor_of(Some(arp_sender_mac(f))),
                mac_addr: Some(arp_sender_mac(f)),
                ipv4_addrs: seq![arp_sender_ipv4(f)],
                ipv6_addrs: Seq::empty(),
            },
        )
    } else {
        None
    }
}

/// The sender fields of a decoded ARP packet.
pub struct ArpFields {
    pub sender_hw_addr: Vec<u8>,
    pub sender_protocol_addr: Vec<u8>,
}

/// The headers of a frame as far as the dissectors read them.
pub struct FrameHeaders {
    /// The EtherType of the Ethernet II header, if there is one.
    pub ether_type: Option<u16>,
    /// The ARP packet, if the network layer is ARP.
    pub arp: Option<ArpFields>,
}

/// Relies on `etherparse::PacketHeaders::from_ethernet_slice` and on
/// `ArpPacket::sender_hw_addr` / `sender_protocol_addr`. From its source: a
/// frame under 14 bytes fails; a decoded frame has the Ethernet II header, whose
/// EtherType is bytes 12 and 13; an ARP packet is read from a suffix of the
/// bytes after that header, needs 8 bytes plus twice each declared address
/// length, and fails only when they are missing; under EtherType ARP it starts
/// at byte 14.
#[verifier::external_body]
pub(crate) fn decode_frame(frame: &[u8]) -> (r: Option<FrameHeaders>)
    ensures
        frame@.len() < ETHERNET_HEADER_LEN ==> r is None,
        r matches Some(h) ==> frame@.len() >= ETHERNET_HEADER_LEN && h.ether_type == Some(
            ether_type_of(frame@) as u16,
        ),
        r matches Some(h) ==> (h.arp matches Some(a) ==> frame@.len() >= 22 + 2
            * a.sender_hw_addr@.len() + 2 * a.sender_protocol_addr@.len()),
        is_arp_frame(frame@) ==> (r is Some <==> arp_complete(frame@)),
        is_arp_frame(frame@) ==> (r matches Some(h) ==> (h.arp matches Some(a)
            && a.sender_hw_addr@ == frame@.subrange(22, 22 + arp_hw_size(frame@))
            && a.sender_protocol_addr@ == frame@.subrange(
            22 + arp_hw_size(frame@),
            22 + arp_hw_size(frame@) + arp_proto_size(frame@),
        ))),
{
    let h = etherparse::PacketHeaders::from_ethernet_slice(frame).ok()?;
    Some(FrameHeaders {
        ether_type: match h.link { Some(LinkHeader::Ethernet2(e)) => Some(e.ether_type.0), _ => None },
        arp: match h.net {
            Some(NetHeaders::Arp(a)) => Some(ArpFields {
                sender_hw_addr: a.sender_hw_addr().to_vec(),
                sender_protocol_addr: a.sender_protocol_addr().to_vec(),
            }),
            _ => None,
        },
    })
}

/// Dissects one raw Ethernet frame. ARP frames go to the ARP dissector; every
/// other frame, and every frame that does not decode, is no discovery signal.
pub fn handle_packet(packet_data: &[u8]) -> (r: Option<DeviceInfo>)
    ensures
        r matches Some(d) ==> dissect(packet_data@) == Some(d@),
        r is None ==> dissect(packet_data@) is None,
        packet_data@.len() < MIN_ARP_FRAME_LEN ==> r is None,
{
    match decode_frame(packet_data) {
        Some(headers) => {
            match headers.ether_type {
                Some(t) => {
                    if t == ETHER_TYPE_ARP {
                        return arp::handle_arp(packet_data);
                    }
                },
                None => {},
            }
            None
        },
        None => None,
    }
}

} // verus!
