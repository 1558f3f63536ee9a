use r_snoop::capture::device_info::DeviceInfo;
use r_snoop::parsers::arp::handle_arp;
use r_snoop::parsers::handle_packet;
use r_snoop::parsers::mdns::{extract_destination_ip, is_mdns_destination};

fn arp_frame(mac: [u8; 6], ip: [u8; 4]) -> Vec<u8> {
    let mut f = vec![0xff, 0xff, 0xff, 0xff, 0xff, 0xff];
    f.extend_from_slice(&mac);
    f.extend_from_slice(&[0x08, 0x06]);
    // hardware type Ethernet, protocol IPv4, sizes 6 and 4, opcode request
    f.extend_from_slice(&[0x00, 0x01, 0x08, 0x00, 6, 4, 0x00, 0x01]);
    f.extend_from_slice(&mac);
    f.extend_from_slice(&ip);
    f.extend_from_slice(&[0, 0, 0, 0, 0, 0]);
    f.extend_from_slice(&[10, 0, 0, 1]);
    f
}

#[test]
fn arp_frame_yields_sender_record() {
    let frame = arp_frame([0xAA, 0xBB, 0xCC, 0x00, 0x11, 0x22], [10, 0, 0, 5]);
    assert_eq!(frame.len(), 42);
    let info = handle_packet(&frame).expect("an ARP frame is a discovery signal");
    assert_eq!(info.mac_addr(), Some([0xAA, 0xBB, 0xCC, 0x00, 0x11, 0x22]));
    assert_eq!(info.ipv4(), &[[10, 0, 0, 5]]);
    assert!(info.ipv6().is_empty());
}

#[test]
fn arp_frame_with_known_vendor() {
    let frame = arp_frame([0x00, 0x00, 0x00, 0x12, 0x34, 0x56], [192, 168, 1, 7]);
    let info = handle_packet(&frame).unwrap();
    assert_eq!(info.mac_vendor(), "XEROX CORPORATION");
    assert_eq!(info.ipv4(), &[[192, 168, 1, 7]]);
}

#[test]
fn arp_frame_with_unknown_vendor() {
    let frame = arp_frame([0xAA, 0xBB, 0xCC, 0x00, 0x11, 0x22], [10, 0, 0, 5]);
    let info = handle_packet(&frame).unwrap();
    assert_eq!(info.mac_vendor(), "Unknown");
}

#[test]
fn sender_protocol_address_follows_longer_hardware_address() {
    // hardware addresses of 8 bytes: the first 6 are the sender's MAC
    let mut f = vec![0xff; 6];
    f.extend_from_slice(&[1, 2, 3, 4, 5, 6]);
    f.extend_from_slice(&[0x08, 0x06, 0x00, 0x01, 0x08, 0x00, 8, 4, 0x00, 0x02]);
    f.extend_from_slice(&[1, 2, 3, 4, 5, 6, 7, 8]);
    f.extend_from_slice(&[172, 16, 0, 9]);
    f.extend_from_slice(&[0; 8]);
    f.extend_from_slice(&[0; 4]);
    let info = handle_packet(&f).unwrap();
    assert_eq!(info.mac_addr(), Some([1, 2, 3, 4, 5, 6]));
    assert_eq!(info.ipv4(), &[[172, 16, 0, 9]]);
}

#[test]
fn ipv4_frame_is_no_signal() {
    let mut f = vec![0xff; 6];
    f.extend_from_slice(&[1, 2, 3, 4, 5, 6]);
    f.extend_from_slice(&[0x08, 0x00]);
    // a minimal IPv4 header carrying UDP from port 1000 to port 2000
    f.extend_from_slice(&[0x45, 0, 0, 28, 0, 0, 0, 0, 64, 17, 0, 0, 10, 0, 0, 1, 10, 0, 0, 2]);
    f.extend_from_slice(&[0x03, 0xe8, 0x07, 0xd0, 0, 8, 0, 0]);
    assert!(handle_packet(&f).is_none());
}

#[test]
fn unknown_ether_type_is_no_signal() {
    let mut f = arp_frame([1, 2, 3, 4, 5, 6], [10, 0, 0, 1]);
    f[12] = 0x88;
    f[13] = 0xcc;
    assert!(handle_packet(&f).is_none());
}

#[test]
fn truncated_arp_frame_is_no_signal() {
    let frame = arp_frame([0xAA, 0xBB, 0xCC, 0x00, 0x11, 0x22], [10, 0, 0, 5]);
    // cut inside the sender hardware address
    assert!(handle_packet(&frame[..25]).is_none());
    assert!(handle_arp(&frame[..25]).is_none());
}

#[test]
fn short_hardware_address_is_no_signal() {
    // declared hardware-address length 4: shorter than an Ethernet address
    let mut f = vec![0xff; 6];
    f.extend_from_slice(&[1, 2, 3, 4, 5, 6]);
    f.extend_from_slice(&[0x08, 0x06, 0x00, 0x01, 0x08, 0x00, 4, 4, 0x00, 0x01]);
    f.extend_from_slice(&[1, 2, 3, 4, 10, 0, 0, 1, 0, 0, 0, 0, 10, 0, 0, 2]);
    assert!(handle_packet(&f).is_none());
}

#[test]
fn short_protocol_address_is_no_signal() {
    let mut f = vec![0xff; 6];
    f.extend_from_slice(&[1, 2, 3, 4, 5, 6]);
    f.extend_from_slice(&[0x08, 0x06, 0x00, 0x01, 0x08, 0x00, 6, 2, 0x00, 0x01]);
    f.extend_from_slice(&[1, 2, 3, 4, 5, 6, 10, 0, 0, 0, 0, 0, 0, 0, 10, 0]);
    assert!(handle_packet(&f).is_none());
}

#[test]
fn every_prefix_shorter_than_an_arp_frame_is_no_signal() {
    let frame = arp_frame([0x00, 0x00, 0x00, 0x12, 0x34, 0x56], [10, 0, 0, 5]);
    for n in 0..frame.len() {
        assert!(handle_packet(&frame[..n]).is_none(), "prefix of {} bytes", n);
    }
    assert!(handle_packet(&frame).is_some());
}

#[test]
fn arbitrary_bytes_do_not_panic() {
    let mut seed: u32 = 12345;
    for len in 0..200usize {
        let mut buf = Vec::new();
        for _ in 0..len {
            seed = seed.wrapping_mul(1103515245).wrapping_add(12345);
            buf.push((seed >> 16) as u8);
        }
        let _ = handle_packet(&buf);
        buf.truncate(len.min(12));
        buf.extend_from_slice(&[0x08, 0x06]);
        let _ = handle_packet(&buf);
    }
}

#[test]
fn arp_dissector_matches_chain_on_arp_frame() {
    let frame = arp_frame([0x50, 0xA6, 0xD8, 0x01, 0x02, 0x03], [10, 1, 2, 3]);
    let a: DeviceInfo = handle_arp(&frame).unwrap();
    let b = handle_packet(&frame).unwrap();
    assert_eq!(a.mac_addr(), b.mac_addr());
    assert_eq!(a.mac_vendor(), b.mac_vendor());
    assert_eq!(a.ipv4(), b.ipv4());
}

#[test]
fn destination_ip_of_ipv4_header() {
    let mut p = vec![0u8; 20];
    p[16] = 224;
    p[19] = 251;
    assert_eq!(extract_destination_ip(&p), Some([224, 0, 0, 251]));
    assert!(is_mdns_destination(&p));
    p[19] = 250;
    assert!(!is_mdns_destination(&p));
    assert_eq!(extract_destination_ip(&p[..19]), None);
    assert!(!is_mdns_destination(&p[..19]));
}
