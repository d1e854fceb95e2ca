use arp_tarpit::codec::build_arp_reply;
use arp_tarpit::codec::build_syn_ack;
use arp_tarpit::codec::parse_arp;
use arp_tarpit::codec::parse_ethernet;
use arp_tarpit::codec::parse_ipv4_tcp;
use arp_tarpit::codec::ArpExchange;
use arp_tarpit::codec::CodecError;
use arp_tarpit::checksum::internet_checksum;
use arp_tarpit::Ipv4Address;
use arp_tarpit::MacAddress;

fn ip(o0: u8, o1: u8, o2: u8, o3: u8) -> Ipv4Address {
    Ipv4Address::new(o0, o1, o2, o3)
}

fn mac(m0: u8, m1: u8, m2: u8, m3: u8, m4: u8, m5: u8) -> MacAddress {
    MacAddress::new(m0, m1, m2, m3, m4, m5)
}

fn sample_exchange() -> ArpExchange {
    ArpExchange {
        sender_ip: ip(10, 0, 0, 5),
        target_ip: ip(10, 0, 0, 5),
        sender_mac: mac(0xde, 0xad, 0xbe, 0xef, 0x00, 0x01),
        target_mac: mac(0xde, 0xad, 0xbe, 0xef, 0x00, 0x01),
    }
}

#[test]
fn parse_ethernet_rejects_short_frame() {
    let short: Vec<u8> = vec![0u8; 13];
    assert!(matches!(parse_ethernet(&short), Err(CodecError::MalformedFrame)));
}

#[test]
fn parse_ethernet_reads_header_and_payload() {
    let mut frame: Vec<u8> = vec![1, 2, 3, 4, 5, 6, 7, 8, 9, 10, 11, 12, 0x08, 0x06];
    frame.extend_from_slice(&[0xaa, 0xbb, 0xcc]);
    let f = parse_ethernet(&frame).unwrap();
    assert_eq!(f.dst_mac, mac(1, 2, 3, 4, 5, 6));
    assert_eq!(f.src_mac, mac(7, 8, 9, 10, 11, 12));
    assert_eq!(f.ethertype, 0x0806);
    assert_eq!(f.payload, vec![0xaa, 0xbb, 0xcc]);
}

#[test]
fn parse_arp_rejects_short_buffer() {
    let short: Vec<u8> = vec![0u8; 27];
    assert!(matches!(parse_arp(&short), Err(CodecError::MalformedFrame)));
}

#[test]
fn parse_arp_rejects_non_ethernet_hardware() {
    let mut p: Vec<u8> = vec![0u8; 28];
    p[0] = 0x00;
    p[1] = 0x06; // IEEE 802 hardware type, not Ethernet
    assert!(matches!(parse_arp(&p), Err(CodecError::Unsupported)));
}

#[test]
fn arp_reply_round_trip() {
    let x = ArpExchange {
        sender_ip: ip(192, 168, 1, 77),
        target_ip: ip(192, 168, 1, 10),
        sender_mac: mac(2, 4, 6, 8, 10, 12),
        target_mac: mac(1, 3, 5, 7, 9, 11),
    };
    let frame = build_arp_reply(x);
    assert_eq!(frame.len(), 42);
    let eth = parse_ethernet(&frame).unwrap();
    assert_eq!(eth.dst_mac, x.target_mac);
    assert_eq!(eth.src_mac, x.sender_mac);
    assert_eq!(eth.ethertype, 0x0806);
    let msg = parse_arp(&eth.payload).unwrap();
    assert_eq!(msg.operation, 2);
    assert_eq!(msg.exchange, x);
}

#[test]
fn arp_reply_fixed_fields() {
    let frame = build_arp_reply(sample_exchange());
    // hardware type Ethernet, protocol IPv4, lengths 6 and 4, operation reply
    assert_eq!(&frame[14..22], &[0x00, 0x01, 0x08, 0x00, 6, 4, 0x00, 0x02]);
}

#[test]
fn parse_ipv4_tcp_rejects_short_frame() {
    let short: Vec<u8> = vec![0u8; 53];
    assert!(matches!(parse_ipv4_tcp(&short), Err(CodecError::MalformedFrame)));
}

#[test]
fn parse_ipv4_tcp_rejects_other_ethertype() {
    let mut frame: Vec<u8> = vec![0u8; 54];
    frame[12] = 0x08;
    frame[13] = 0x06;
    assert!(matches!(parse_ipv4_tcp(&frame), Err(CodecError::NotIpv4)));
}

#[test]
fn syn_ack_round_trip() {
    let src_ip = ip(10, 0, 0, 5);
    let dst_ip = ip(10, 0, 0, 9);
    let dst_mac = mac(0x66, 0x55, 0x44, 0x33, 0x22, 0x11);
    let src_mac = mac(0x11, 0x22, 0x33, 0x44, 0x55, 0x66);
    let frame = build_syn_ack(src_ip, dst_ip, 80, 54321, dst_mac, src_mac, 7000);
    assert_eq!(frame.len(), 60);
    let info = parse_ipv4_tcp(&frame).unwrap();
    assert_eq!(info.src_ip, src_ip);
    assert_eq!(info.dst_ip, dst_ip);
    assert_eq!(info.src_port, 80);
    assert_eq!(info.dst_port, 54321);
    assert_eq!(info.src_mac, src_mac);
    assert_eq!(info.dst_mac, dst_mac);
    assert_eq!(info.flags, 0x12);
    assert_eq!(info.seq, 1);
    assert_eq!(info.ack, 7001);
}

#[test]
fn syn_ack_acknowledgment_wraps() {
    let frame = build_syn_ack(
        ip(10, 0, 0, 5),
        ip(10, 0, 0, 9),
        80,
        54321,
        mac(0x66, 0x55, 0x44, 0x33, 0x22, 0x11),
        mac(0x11, 0x22, 0x33, 0x44, 0x55, 0x66),
        u32::MAX,
    );
    let info = parse_ipv4_tcp(&frame).unwrap();
    assert_eq!(info.ack, 0);
}

#[test]
fn syn_ack_ipv4_fixed_fields() {
    let frame = build_syn_ack(
        ip(10, 0, 0, 5),
        ip(10, 0, 0, 9),
        80,
        54321,
        mac(0x66, 0x55, 0x44, 0x33, 0x22, 0x11),
        mac(0x11, 0x22, 0x33, 0x44, 0x55, 0x66),
        1000,
    );
    // version 4, header length 5, total length 40, TTL 64, protocol TCP
    assert_eq!(frame[14], 0x45);
    assert_eq!(&frame[16..18], &[0x00, 0x28]);
    assert_eq!(frame[22], 64);
    assert_eq!(frame[23], 6);
    // data offset 5, window 1024
    assert_eq!(frame[46], 0x50);
    assert_eq!(&frame[48..50], &[0x04, 0x00]);
}

#[test]
fn checksum_known_values() {
    let empty: Vec<u8> = vec![];
    assert_eq!(internet_checksum(&empty), 0xffff);
    let one_word: Vec<u8> = vec![0x00, 0x01];
    assert_eq!(internet_checksum(&one_word), 0xfffe);
    // end-around carry: 0xffff + 0x0001 folds to 0x0001
    let carry: Vec<u8> = vec![0xff, 0xff, 0x00, 0x01];
    assert_eq!(internet_checksum(&carry), 0xfffe);
    // an odd trailing byte counts as the high half of a padded word
    let odd: Vec<u8> = vec![0xab];
    assert_eq!(internet_checksum(&odd), !0xab00u16);
}

#[test]
fn checksum_self_verification() {
    // a fixed TCP/IP header with the checksum word (offsets 28 and 29 of the
    // pseudo-header-inclusive segment) zeroed
    let mut segment: Vec<u8> = vec![
        10, 0, 0, 5, 10, 0, 0, 9, 0, 6, 0, 20, 0, 80, 212, 49, 0, 0, 0, 1, 0, 0, 27, 89, 0x50,
        0x12, 0x04, 0x00, 0, 0, 0, 0,
    ];
    let c = internet_checksum(&segment);
    segment[28] = (c >> 8) as u8;
    segment[29] = (c & 0xff) as u8;
    // re-summing the stamped segment, pseudo-header included, yields zero
    assert_eq!(internet_checksum(&segment), 0);
}

#[test]
fn syn_ack_checksum_validates_on_the_wire() {
    let src_ip = ip(172, 16, 3, 200);
    let dst_ip = ip(172, 16, 3, 17);
    let frame = build_syn_ack(
        src_ip,
        dst_ip,
        443,
        50000,
        mac(0xde, 0xad, 0, 0, 0, 2),
        mac(0xde, 0xad, 0, 0, 0, 1),
        123456789,
    );
    // what a receiver computes: pseudo-header + TCP header exactly as sent
    let mut segment: Vec<u8> = Vec::new();
    segment.extend_from_slice(&frame[26..34]); // source and destination IP
    segment.extend_from_slice(&[0, 6, 0, 20]); // zero, protocol, TCP length
    segment.extend_from_slice(&frame[34..54]); // TCP header with stamped checksum
    assert_eq!(internet_checksum(&segment), 0);
}
