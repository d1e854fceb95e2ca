//! The frame codec: pure, stateless transforms between structured
//! address/port/flag records and the fixed byte layouts of Ethernet/ARP and
//! Ethernet/IPv4/TCP frames, including the TCP checksum over the
//! pseudo-header-inclusive segment.

use crate::checksum::spec_checksum;
use crate::net::Ipv4Address;
use crate::net::MacAddress;
use vstd::prelude::*;

verus! {

pub const ETHERTYPE_IPV4: u16 = 0x0800;

pub const ETHERTYPE_ARP: u16 = 0x0806;

pub const ARP_HARDWARE_ETHERNET: u16 = 1;

pub const ARP_OPERATION_REQUEST: u16 = 1;

pub const ARP_OPERATION_REPLY: u16 = 2;

pub const TCP_FLAG_SYN: u8 = 0x02;

pub const TCP_FLAG_ACK: u8 = 0x10;

/// Why a byte buffer was rejected: too short to hold the claimed structure,
/// a valid but out-of-scope protocol variant (a non-Ethernet ARP hardware
/// type), or an ethertype other than IPv4 where IPv4 was required.
#[derive(Clone, Copy, PartialEq, Eq, Structural, Debug)]
pub enum CodecError {
    MalformedFrame,
    Unsupported,
    NotIpv4,
}

/// The parsed fields of one ARP frame, or the fields chosen for a fabricated
/// reply.
#[derive(Clone, Copy, PartialEq, Eq, Structural, Debug)]
pub struct ArpExchange {
    pub sender_ip: Ipv4Address,
    pub target_ip: Ipv4Address,
    pub sender_mac: MacAddress,
    pub target_mac: MacAddress,
}

/// An ARP frame body: the operation (request or reply) and the four
/// addresses it speaks about.
#[derive(Clone, Copy, PartialEq, Eq, Structural, Debug)]
pub struct ArpMessage {
    pub operation: u16,
    pub exchange: ArpExchange,
}

/// The mathematical image of a parsed Ethernet frame.
#[verifier::ext_equal]
pub struct EthernetView {
    pub dst_mac: MacAddress,
    pub src_mac: MacAddress,
    pub ethertype: u16,
    pub payload: Seq<u8>,
}

/// A parsed Ethernet frame: both addresses, the ethertype, and the payload
/// that follows the 14-byte header.
pub struct EthernetFrame {
    pub dst_mac: MacAddress,
    pub src_mac: MacAddress,
    pub ethertype: u16,
    pub payload: Vec<u8>,
}

impl View for EthernetFrame {
    type V = EthernetView;

    open spec fn view(&self) -> EthernetView {
        EthernetView {
            dst_mac: self.dst_mac,
            src_mac: self.src_mac,
            ethertype: self.ethertype,
            payload: self.payload@,
        }
    }
}

/// The fields of one Ethernet/IPv4/TCP frame that the tarpit responder
/// reads: who sent it, to whom, on which ports, and the TCP flags, sequence
/// and acknowledgment numbers.
#[derive(Clone, Copy, PartialEq, Eq, Structural, Debug)]
pub struct TcpFrameInfo {
    pub src_mac: MacAddress,
    pub dst_mac: MacAddress,
    pub src_ip: Ipv4Address,
    pub dst_ip: Ipv4Address,
    pub src_port: u16,
    pub dst_port: u16,
    pub flags: u8,
    pub seq: u32,
    pub ack: u32,
}

/// The 16-bit big-endian value of two bytes.
pub open spec fn spec_be16(hi: u8, lo: u8) -> u16 {
    (hi * 0x100 + lo) as u16
}

/// The 32-bit big-endian value of four bytes.
pub open spec fn spec_be32(b0: u8, b1: u8, b2: u8, b3: u8) -> u32 {
    (b0 * 0x1000000 + b1 * 0x10000 + b2 * 0x100 + b3) as u32
}

/// The six-byte MAC address starting at offset `i` of `s`.
pub open spec fn spec_mac_at(s: Seq<u8>, i: int) -> MacAddress {
    MacAddress {
        m0: s[i],
        m1: s[i + 1],
        m2: s[i + 2],
        m3: s[i + 3],
        m4: s[i + 4],
        m5: s[i + 5],
    }
}

/// The four-byte IPv4 address starting at offset `i` of `s`.
pub open spec fn spec_ip_at(s: Seq<u8>, i: int) -> Ipv4Address {
    Ipv4Address { o0: s[i], o1: s[i + 1], o2: s[i + 2], o3: s[i + 3] }
}

/// What parsing `s` as an Ethernet frame yields: the frame must hold at
/// least the 14-byte header; everything after it is the payload.
pub open spec fn spec_parse_ethernet(s: Seq<u8>) -> Result<EthernetView, CodecError> {
    if s.len() < 14 {
        Err(CodecError::MalformedFrame)
    } else {
        Ok(
            EthernetView {
                dst_mac: spec_mac_at(s, 0),
                src_mac: spec_mac_at(s, 6),
                ethertype: spec_be16(s[12], s[13]),
                payload: s.skip(14),
            },
        )
    }
}

/// What parsing `p` as an ARP body yields: the buffer must hold a full
/// 28-byte ARP record, and only the Ethernet hardware type is in scope.
pub open spec fn spec_parse_arp(p: Seq<u8>) -> Result<ArpMessage, CodecError> {
    if p.len() < 28 {
        Err(CodecError::MalformedFrame)
    } else if spec_be16(p[0], p[1]) != ARP_HARDWARE_ETHERNET {
        Err(CodecError::Unsupported)
    } else {
        Ok(
            ArpMessage {
                operation: spec_be16(p[6], p[7]),
                exchange: ArpExchange {
                    sender_ip: spec_ip_at(p, 14),
                    target_ip: spec_ip_at(p, 24),
                    sender_mac: spec_mac_at(p, 8),
                    target_mac: spec_mac_at(p, 18),
                },
            },
        )
    }
}

/// The fixed 42-byte Ethernet+ARP frame of a fabricated ARP reply:
/// destination and source MAC from the exchange, ethertype ARP, hardware
/// type Ethernet, protocol type IPv4, address lengths 6 and 4, operation
/// reply, then the four addresses as given.
pub open spec fn spec_build_arp_reply(x: ArpExchange) -> Seq<u8> {
    seq![
        x.target_mac.m0,
        x.target_mac.m1,
        x.target_mac.m2,
        x.target_mac.m3,
        x.target_mac.m4,
        x.target_mac.m5,
        x.sender_mac.m0,
        x.sender_mac.m1,
        x.sender_mac.m2,
        x.sender_mac.m3,
        x.sender_mac.m4,
        x.sender_mac.m5,
        0x08u8,
        0x06u8,
        0x00u8,
        0x01u8,
        0x08u8,
        0x00u8,
        6u8,
        4u8,
        0x00u8,
        0x02u8,
        x.sender_mac.m0,
        x.sender_mac.m1,
        x.sender_mac.m2,
        x.sender_mac.m3,
        x.sender_mac.m4,
        x.sender_mac.m5,
        x.sender_ip.o0,
        x.sender_ip.o1,
        x.sender_ip.o2,
        x.sender_ip.o3,
        x.target_mac.m0,
        x.target_mac.m1,
        x.target_mac.m2,
        x.target_mac.m3,
        x.target_mac.m4,
        x.target_mac.m5,
        x.target_ip.o0,
        x.target_ip.o1,
        x.target_ip.o2,
        x.target_ip.o3,
    ]
}

fn read_be16(frame: &Vec<u8>, i: usize) -> (r: u16)
    requires
        frame@.len() <= usize::MAX,
        i + 1 < frame@.len(),
    ensures
        r == spec_be16(frame@[i as int], frame@[i as int + 1]),
{
    (frame[i] as u16) * 0x100 + (frame[i + 1] as u16)
}

fn read_be32(frame: &Vec<u8>, i: usize) -> (r: u32)
    requires
        frame@.len() <= usize::MAX,
        i + 3 < frame@.len(),
    ensures
        r == spec_be32(
            frame@[i as int],
            frame@[i as int + 1],
            frame@[i as int + 2],
            frame@[i as int + 3],
        ),
{
    (frame[i] as u32) * 0x1000000 + (frame[i + 1] as u32) * 0x10000 + (frame[i + 2] as u32) * 0x100
        + (frame[i + 3] as u32)
}

fn read_mac(frame: &Vec<u8>, i: usize) -> (r: MacAddress)
    requires
        frame@.len() <= usize::MAX,
        i + 5 < frame@.len(),
    ensures
        r == spec_mac_at(frame@, i as int),
{
    MacAddress {
        m0: frame[i],
        m1: frame[i + 1],
        m2: frame[i + 2],
        m3: frame[i + 3],
        m4: frame[i + 4],
        m5: frame[i + 5],
    }
}

fn read_ip(frame: &Vec<u8>, i: usize) -> (r: Ipv4Address)
    requires
        frame@.len() <= usize::MAX,
        i + 3 < frame@.len(),
    ensures
        r == spec_ip_at(frame@, i as int),
{
    Ipv4Address { o0: frame[i], o1: frame[i + 1], o2: frame[i + 2], o3: frame[i + 3] }
}

/// Split a raw frame into the two MAC addresses, the ethertype and the
/// payload. Fails with `MalformedFrame` on anything shorter than the
/// 14-byte Ethernet header.
pub fn parse_ethernet(frame: &Vec<u8>) -> (r: Result<EthernetFrame, CodecError>)
    ensures
        match r {
            Ok(f) => spec_parse_ethernet(frame@) == Ok::<EthernetView, CodecError>(f@),
            Err(e) => spec_parse_ethernet(frame@) == Err::<EthernetView, CodecError>(e),
        },
{
    if frame.len() < 14 {
        return Err(CodecError::MalformedFrame);
    }
    let mut payload: Vec<u8> = Vec::new();
    let mut i: usize = 14;
    proof {
        assert(payload@ =~= frame@.subrange(14, 14));
    }
    while i < frame.len()
        invariant
            14 <= i <= frame@.len(),
            payload@ == frame@.subrange(14, i as int),
        decreases frame@.len() - i,
    {
        payload.push(frame[i]);
        proof {
            assert(frame@.subrange(14, i as int).push(frame@[i as int]) =~= frame@.subrange(
                14,
                i as int + 1,
            ));
        }
        i = i + 1;
    }
    proof {
        assert(payload@ =~= frame@.skip(14));
    }
    Ok(
        EthernetFrame {
            dst_mac: read_mac(frame, 0),
            src_mac: read_mac(frame, 6),
            ethertype: read_be16(frame, 12),
            payload,
        },
    )
}

/// Parse an ARP body (the payload of an Ethernet frame). Fails with
/// `MalformedFrame` if the buffer cannot hold a full ARP record and with
/// `Unsupported` on any hardware type other than Ethernet.
pub fn parse_arp(payload: &Vec<u8>) -> (r: Result<ArpMessage, CodecError>)
    ensures
        r == spec_parse_arp(payload@),
{
    if payload.len() < 28 {
        return Err(CodecError::MalformedFrame);
    }
    if read_be16(payload, 0) != ARP_HARDWARE_ETHERNET {
        return Err(CodecError::Unsupported);
    }
    Ok(
        ArpMessage {
            operation: read_be16(payload, 6),
            exchange: ArpExchange {
                sender_ip: read_ip(payload, 14),
                target_ip: read_ip(payload, 24),
                sender_mac: read_mac(payload, 8),
                target_mac: read_mac(payload, 18),
            },
        },
    )
}

/// Emit the fixed 42-byte Ethernet+ARP frame of a fabricated ARP reply for
/// the given exchange.
pub fn build_arp_reply(x: ArpExchange) -> (r: Vec<u8>)
    ensures
        r@ == spec_build_arp_reply(x),
        r@.len() == 42,
{
    let mut v: Vec<u8> = Vec::new();
    v.push(x.target_mac.m0);
    v.push(x.target_mac.m1);
    v.push(x.target_mac.m2);
    v.push(x.target_mac.m3);
    v.push(x.target_mac.m4);
    v.push(x.target_mac.m5);
    v.push(x.sender_mac.m0);
    v.push(x.sender_mac.m1);
    v.push(x.sender_mac.m2);
    v.push(x.sender_mac.m3);
    v.push(x.sender_mac.m4);
    v.push(x.sender_mac.m5);
    v.push(0x08);
    v.push(0x06);
    v.push(0x00);
    v.push(0x01);
    v.push(0x08);
    v.push(0x00);
    v.push(6);
    v.push(4);
    v.push(0x00);
    v.push(0x02);
    v.push(x.sender_mac.m0);
    v.push(x.sender_mac.m1);
    v.push(x.sender_mac.m2);
    v.push(x.sender_mac.m3);
    v.push(x.sender_mac.m4);
    v.push(x.sender_mac.m5);
    v.push(x.sender_ip.o0);
    v.push(x.sender_ip.o1);
    v.push(x.sender_ip.o2);
    v.push(x.sender_ip.o3);
    v.push(x.target_mac.m0);
    v.push(x.target_mac.m1);
    v.push(x.target_mac.m2);
    v.push(x.target_mac.m3);
    v.push(x.target_mac.m4);
    v.push(x.target_mac.m5);
    v.push(x.target_ip.o0);
    v.push(x.target_ip.o1);
    v.push(x.target_ip.o2);
    v.push(x.target_ip.o3);
    proof {
        assert(v@ =~= spec_build_arp_reply(x));
    }
    v
}

/// The high byte of a 16-bit value.
pub open spec fn spec_hi8(v: u16) -> u8 {
    (v / 0x100) as u8
}

/// The low byte of a 16-bit value.
pub open spec fn spec_lo8(v: u16) -> u8 {
    (v % 0x100) as u8
}

/// Byte `k` (big-endian, `k` in `0..4`) of a 32-bit value.
pub open spec fn spec_u32_byte(v: u32, k: int) -> u8 {
    if k == 0 {
        (v / 0x1000000) as u8
    } else if k == 1 {
        ((v / 0x10000) % 0x100) as u8
    } else if k == 2 {
        ((v / 0x100) % 0x100) as u8
    } else {
        (v % 0x100) as u8
    }
}

/// Reassembling a 16-bit value from its two bytes gives the value back.
pub proof fn lemma_be16_of_bytes(v: u16)
    ensures
        spec_be16(spec_hi8(v), spec_lo8(v)) == v,
{
    let hi = spec_hi8(v);
    let lo = spec_lo8(v);
    assert((hi as u16) * 0x100 + (lo as u16) == v) by (bit_vector)
        requires
            hi == (v / 0x100) as u8 && lo == (v % 0x100) as u8,
    ;
}

/// Reassembling a 32-bit value from its four bytes gives the value back.
pub proof fn lemma_be32_of_bytes(v: u32)
    ensures
        spec_be32(
            spec_u32_byte(v, 0),
            spec_u32_byte(v, 1),
            spec_u32_byte(v, 2),
            spec_u32_byte(v, 3),
        ) == v,
{
    let b0 = spec_u32_byte(v, 0);
    let b1 = spec_u32_byte(v, 1);
    let b2 = spec_u32_byte(v, 2);
    let b3 = spec_u32_byte(v, 3);
    assert((b0 as u32) * 0x1000000 + (b1 as u32) * 0x10000 + (b2 as u32) * 0x100 + (b3 as u32)
        == v) by (bit_vector)
        requires
            b0 == (v / 0x1000000) as u8 && b1 == ((v / 0x10000) % 0x100) as u8 && b2 == ((v
                / 0x100) % 0x100) as u8 && b3 == (v % 0x100) as u8,
    ;
}

fn u16_bytes(v: u16) -> (r: (u8, u8))
    ensures
        r.0 == spec_hi8(v),
        r.1 == spec_lo8(v),
{
    ((v / 0x100) as u8, (v % 0x100) as u8)
}

fn u32_bytes(v: u32) -> (r: (u8, u8, u8, u8))
    ensures
        r.0 == spec_u32_byte(v, 0),
        r.1 == spec_u32_byte(v, 1),
        r.2 == spec_u32_byte(v, 2),
        r.3 == spec_u32_byte(v, 3),
{
    (
        (v / 0x1000000) as u8,
        ((v / 0x10000) % 0x100) as u8,
        ((v / 0x100) % 0x100) as u8,
        (v % 0x100) as u8,
    )
}

/// The acknowledgment number of a SYN/ACK: the received sequence number
/// plus one, wrapping around at the top of the 32-bit space.
pub open spec fn spec_wrapping_ack(received_seq: u32) -> u32 {
    if received_seq == 0xffffffff {
        0
    } else {
        (received_seq + 1) as u32
    }
}

/// Frame round trip for ARP: a fabricated reply parses back, at the
/// Ethernet level, to the two MAC addresses and the ARP ethertype it was
/// built from, and its payload parses back to a reply carrying exactly the
/// exchange that was supplied.
pub proof fn lemma_arp_round_trip(x: ArpExchange)
    ensures
        ({
            let frame = spec_build_arp_reply(x);
            &&& spec_parse_ethernet(frame) == Ok::<EthernetView, CodecError>(
                EthernetView {
                    dst_mac: x.target_mac,
                    src_mac: x.sender_mac,
                    ethertype: ETHERTYPE_ARP,
                    payload: frame.skip(14),
                },
            )
            &&& spec_parse_arp(frame.skip(14)) == Ok::<ArpMessage, CodecError>(
                ArpMessage { operation: ARP_OPERATION_REPLY, exchange: x },
            )
        }),
{
    let frame = spec_build_arp_reply(x);
    let p = frame.skip(14);
    assert(p.len() == 28);
    assert(forall|k: int| 0 <= k < 28 ==> p[k] == frame[k + 14]);
}

/// What parsing `s` as an Ethernet/IPv4/TCP frame yields. The frame must
/// hold the three option-less headers (14 + 20 + 20 bytes); an ethertype
/// other than IPv4 is reported as `NotIpv4`.
pub open spec fn spec_parse_ipv4_tcp(s: Seq<u8>) -> Result<TcpFrameInfo, CodecError> {
    if s.len() < 54 {
        Err(CodecError::MalformedFrame)
    } else if spec_be16(s[12], s[13]) != ETHERTYPE_IPV4 {
        Err(CodecError::NotIpv4)
    } else {
        Ok(
            TcpFrameInfo {
                src_mac: spec_mac_at(s, 6),
                dst_mac: spec_mac_at(s, 0),
                src_ip: spec_ip_at(s, 26),
                dst_ip: spec_ip_at(s, 30),
                src_port: spec_be16(s[34], s[35]),
                dst_port: spec_be16(s[36], s[37]),
                flags: s[47],
                seq: spec_be32(s[38], s[39], s[40], s[41]),
                ack: spec_be32(s[42], s[43], s[44], s[45]),
            },
        )
    }
}

/// Parse a raw frame as Ethernet/IPv4/TCP, reading the fields the tarpit
/// responder decides by.
pub fn parse_ipv4_tcp(frame: &Vec<u8>) -> (r: Result<TcpFrameInfo, CodecError>)
    ensures
        r == spec_parse_ipv4_tcp(frame@),
{
    if frame.len() < 54 {
        return Err(CodecError::MalformedFrame);
    }
    if read_be16(frame, 12) != ETHERTYPE_IPV4 {
        return Err(CodecError::NotIpv4);
    }
    Ok(
        TcpFrameInfo {
            src_mac: read_mac(frame, 6),
            dst_mac: read_mac(frame, 0),
            src_ip: read_ip(frame, 26),
            dst_ip: read_ip(frame, 30),
            src_port: read_be16(frame, 34),
            dst_port: read_be16(frame, 36),
            flags: frame[47],
            seq: read_be32(frame, 38),
            ack: read_be32(frame, 42),
        },
    )
}

/// The 32-byte buffer the TCP checksum is computed over: the IPv4
/// pseudo-header (source, destination, zero, protocol TCP, TCP length 20)
/// followed by the 20-byte TCP header of the SYN/ACK with its checksum
/// field zeroed. The TCP header carries the fixed initial sequence number 1,
/// the given acknowledgment, data offset 5, flags SYN|ACK and window 1024.
pub open spec fn spec_syn_ack_pseudo_segment(
    src_ip: Ipv4Address,
    dst_ip: Ipv4Address,
    src_port: u16,
    dst_port: u16,
    ack: u32,
) -> Seq<u8> {
    seq![
        src_ip.o0,
        src_ip.o1,
        src_ip.o2,
        src_ip.o3,
        dst_ip.o0,
        dst_ip.o1,
        dst_ip.o2,
        dst_ip.o3,
        0u8,
        6u8,
        0u8,
        20u8,
        spec_hi8(src_port),
        spec_lo8(src_port),
        spec_hi8(dst_port),
        spec_lo8(dst_port),
        0u8,
        0u8,
        0u8,
        1u8,
        spec_u32_byte(ack, 0),
        spec_u32_byte(ack, 1),
        spec_u32_byte(ack, 2),
        spec_u32_byte(ack, 3),
        0x50u8,
        0x12u8,
        0x04u8,
        0x00u8,
        0u8,
        0u8,
        0u8,
        0u8,
    ]
}

/// The fixed 60-byte Ethernet+IPv4+TCP frame of a forged SYN/ACK. IPv4:
/// version 4, header length 5, total length 40, TTL 64, protocol TCP, the
/// given addresses. TCP: the fields of the pseudo segment above, with the
/// Internet checksum of that segment stamped into the checksum field. The
/// last six bytes pad the frame to the Ethernet minimum.
pub open spec fn spec_build_syn_ack(
    src_ip: Ipv4Address,
    dst_ip: Ipv4Address,
    src_port: u16,
    dst_port: u16,
    dst_mac: MacAddress,
    src_mac: MacAddress,
    received_seq: u32,
) -> Seq<u8> {
    let ack = spec_wrapping_ack(received_seq);
    let cks = spec_checksum(spec_syn_ack_pseudo_segment(src_ip, dst_ip, src_port, dst_port, ack));
    seq![
        dst_mac.m0,
        dst_mac.m1,
        dst_mac.m2,
        dst_mac.m3,
        dst_mac.m4,
        dst_mac.m5,
        src_mac.m0,
        src_mac.m1,
        src_mac.m2,
        src_mac.m3,
        src_mac.m4,
        src_mac.m5,
        0x08u8,
        0x00u8,
        0x45u8,
        0x00u8,
        0x00u8,
        0x28u8,
        0x00u8,
        0x00u8,
        0x00u8,
        0x00u8,
        64u8,
        6u8,
        0x00u8,
        0x00u8,
        src_ip.o0,
        src_ip.o1,
        src_ip.o2,
        src_ip.o3,
        dst_ip.o0,
        dst_ip.o1,
        dst_ip.o2,
        dst_ip.o3,
        spec_hi8(src_port),
        spec_lo8(src_port),
        spec_hi8(dst_port),
        spec_lo8(dst_port),
        0u8,
        0u8,
        0u8,
        1u8,
        spec_u32_byte(ack, 0),
        spec_u32_byte(ack, 1),
        spec_u32_byte(ack, 2),
        spec_u32_byte(ack, 3),
        0x50u8,
        0x12u8,
        0x04u8,
        0x00u8,
        spec_hi8(cks),
        spec_lo8(cks),
        0u8,
        0u8,
        0u8,
        0u8,
        0u8,
        0u8,
        0u8,
        0u8,
    ]
}

/// Emit the fixed 60-byte Ethernet+IPv4+TCP frame of a forged SYN/ACK,
/// acknowledging `received_seq + 1` (wrapping) with flags SYN|ACK and the
/// TCP checksum computed over the pseudo-header-inclusive segment.
#[verifier::rlimit(60)]
pub fn build_syn_ack(
    src_ip: Ipv4Address,
    dst_ip: Ipv4Address,
    src_port: u16,
    dst_port: u16,
    dst_mac: MacAddress,
    src_mac: MacAddress,
    received_seq: u32,
) -> (r: Vec<u8>)
    ensures
        r@ == spec_build_syn_ack(src_ip, dst_ip, src_port, dst_port, dst_mac, src_mac, received_seq),
        r@.len() == 60,
{
    let ack: u32 = if received_seq == 0xffffffff {
        0
    } else {
        received_seq + 1
    };
    let (sp_hi, sp_lo) = u16_bytes(src_port);
    let (dp_hi, dp_lo) = u16_bytes(dst_port);
    let (a0, a1, a2, a3) = u32_bytes(ack);
    let mut pseudo: Vec<u8> = Vec::new();
    pseudo.push(src_ip.o0);
    pseudo.push(src_ip.o1);
    pseudo.push(src_ip.o2);
    pseudo.push(src_ip.o3);
    pseudo.push(dst_ip.o0);
    pseudo.push(dst_ip.o1);
    pseudo.push(dst_ip.o2);
    pseudo.push(dst_ip.o3);
    pseudo.push(0);
    pseudo.push(6);
    pseudo.push(0);
    pseudo.push(20);
    pseudo.push(sp_hi);
    pseudo.push(sp_lo);
    pseudo.push(dp_hi);
    pseudo.push(dp_lo);
    pseudo.push(0);
    pseudo.push(0);
    pseudo.push(0);
    pseudo.push(1);
    pseudo.push(a0);
    pseudo.push(a1);
    pseudo.push(a2);
    pseudo.push(a3);
    pseudo.push(0x50);
    pseudo.push(0x12);
    pseudo.push(0x04);
    pseudo.push(0x00);
    pseudo.push(0);
    pseudo.push(0);
    pseudo.push(0);
    pseudo.push(0);
    proof {
        assert(pseudo@ =~= spec_syn_ack_pseudo_segment(src_ip, dst_ip, src_port, dst_port, ack));
    }
    let cks = crate::checksum::internet_checksum(&pseudo);
    let (c_hi, c_lo) = u16_bytes(cks);
    let mut v: Vec<u8> = Vec::new();
    v.push(dst_mac.m0);
    v.push(dst_mac.m1);
    v.push(dst_mac.m2);
    v.push(dst_mac.m3);
    v.push(dst_mac.m4);
    v.push(dst_mac.m5);
    v.push(src_mac.m0);
    v.push(src_mac.m1);
    v.push(src_mac.m2);
    v.push(src_mac.m3);
    v.push(src_mac.m4);
    v.push(src_mac.m5);
    v.push(0x08);
    v.push(0x00);
    v.push(0x45);
    v.push(0x00);
    v.push(0x00);
    v.push(0x28);
    v.push(0x00);
    v.push(0x00);
    v.push(0x00);
    v.push(0x00);
    v.push(64);
    v.push(6);
    v.push(0x00);
    v.push(0x00);
    v.push(src_ip.o0);
    v.push(src_ip.o1);
    v.push(src_ip.o2);
    v.push(src_ip.o3);
    v.push(dst_ip.o0);
    v.push(dst_ip.o1);
    v.push(dst_ip.o2);
    v.push(dst_ip.o3);
    v.push(sp_hi);
    v.push(sp_lo);
    v.push(dp_hi);
    v.push(dp_lo);
    v.push(0);
    v.push(0);
    v.push(0);
    v.push(1);
    v.push(a0);
    v.push(a1);
    v.push(a2);
    v.push(a3);
    v.push(0x50);
    v.push(0x12);
    v.push(0x04);
    v.push(0x00);
    v.push(c_hi);
    v.push(c_lo);
    v.push(0);
    v.push(0);
    v.push(0);
    v.push(0);
    v.push(0);
    v.push(0);
    v.push(0);
    v.push(0);
    proof {
        assert(v@ =~= spec_build_syn_ack(
            src_ip,
            dst_ip,
            src_port,
            dst_port,
            dst_mac,
            src_mac,
            received_seq,
        ));
    }
    v
}

/// Frame round trip for the SYN/ACK: a forged reply parses back to exactly
/// the addresses and ports it was built from, with flags SYN|ACK, the fixed
/// initial sequence number 1, and the received sequence number acknowledged
/// plus one (wrapping).
pub proof fn lemma_syn_ack_round_trip(
    src_ip: Ipv4Address,
    dst_ip: Ipv4Address,
    src_port: u16,
    dst_port: u16,
    dst_mac: MacAddress,
    src_mac: MacAddress,
    received_seq: u32,
)
    ensures
        spec_parse_ipv4_tcp(
            spec_build_syn_ack(src_ip, dst_ip, src_port, dst_port, dst_mac, src_mac, received_seq),
        ) == Ok::<TcpFrameInfo, CodecError>(
            TcpFrameInfo {
                src_mac,
                dst_mac,
                src_ip,
                dst_ip,
                src_port,
                dst_port,
                flags: TCP_FLAG_SYN | TCP_FLAG_ACK,
                seq: 1,
                ack: spec_wrapping_ack(received_seq),
            },
        ),
{
    lemma_be16_of_bytes(src_port);
    lemma_be16_of_bytes(dst_port);
    lemma_be32_of_bytes(spec_wrapping_ack(received_seq));
    assert(TCP_FLAG_SYN | TCP_FLAG_ACK == 0x12u8) by (bit_vector);
}

/// The forged SYN/ACK carries a checksum that self-verifies: writing the
/// stamped checksum bytes (frame offsets 50 and 51) back into the zeroed
/// checksum field of the pseudo-header-inclusive segment gives a buffer
/// whose Internet checksum is zero, exactly what a receiver computes when
/// it validates the segment.
pub proof fn lemma_syn_ack_checksum_verifies(
    src_ip: Ipv4Address,
    dst_ip: Ipv4Address,
    src_port: u16,
    dst_port: u16,
    dst_mac: MacAddress,
    src_mac: MacAddress,
    received_seq: u32,
)
    ensures
        ({
            let frame = spec_build_syn_ack(
                src_ip,
                dst_ip,
                src_port,
                dst_port,
                dst_mac,
                src_mac,
                received_seq,
            );
            let pseudo = spec_syn_ack_pseudo_segment(
                src_ip,
                dst_ip,
                src_port,
                dst_port,
                spec_wrapping_ack(received_seq),
            );
            let stamped = pseudo.update(28, frame[50]).update(29, frame[51]);
            spec_checksum(stamped) == 0
        }),
{
    let pseudo = spec_syn_ack_pseudo_segment(
        src_ip,
        dst_ip,
        src_port,
        dst_port,
        spec_wrapping_ack(received_seq),
    );
    crate::checksum::lemma_checksum_self_verifies(pseudo, 14);
}

} // verus!
