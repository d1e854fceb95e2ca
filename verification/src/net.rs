//! Plain-value address types shared by the frame codec, the tracker and the
//! capture-loop decision steps.

use vstd::prelude::*;

verus! {

/// An IPv4 address as four octets, most significant first.
#[derive(Clone, Copy, PartialEq, Eq, Structural, Debug)]
pub struct Ipv4Address {
    pub o0: u8,
    pub o1: u8,
    pub o2: u8,
    pub o3: u8,
}

impl Ipv4Address {
    /// The address as one 32-bit value, octets in network order.
    pub open spec fn spec_value(self) -> u32 {
        (self.o0 * 0x1000000 + self.o1 * 0x10000 + self.o2 * 0x100 + self.o3) as u32
    }

    pub fn new(o0: u8, o1: u8, o2: u8, o3: u8) -> (r: Ipv4Address)
        ensures
            r == (Ipv4Address { o0, o1, o2, o3 }),
    {
        Ipv4Address { o0, o1, o2, o3 }
    }

    pub fn value(self) -> (r: u32)
        ensures
            r == self.spec_value(),
    {
        self.o0 as u32 * 0x1000000 + self.o1 as u32 * 0x10000 + self.o2 as u32 * 0x100
            + self.o3 as u32
    }
}

/// A 48-bit link-layer (MAC) address as six octets.
#[derive(Clone, Copy, PartialEq, Eq, Structural, Debug)]
pub struct MacAddress {
    pub m0: u8,
    pub m1: u8,
    pub m2: u8,
    pub m3: u8,
    pub m4: u8,
    pub m5: u8,
}

impl MacAddress {
    pub fn new(m0: u8, m1: u8, m2: u8, m3: u8, m4: u8, m5: u8) -> (r: MacAddress)
        ensures
            r == (MacAddress { m0, m1, m2, m3, m4, m5 }),
    {
        MacAddress { m0, m1, m2, m3, m4, m5 }
    }
}

/// One direction of ARP inquiry: `sender_ip` asking about `target_ip`.
/// `(target, sender)` is a different pair than `(sender, target)`.
#[derive(Clone, Copy, PartialEq, Eq, Structural, Debug)]
pub struct AddressPair {
    pub target_ip: Ipv4Address,
    pub sender_ip: Ipv4Address,
}

impl AddressPair {
    /// The pair packed into one 64-bit tracker key: target address in the
    /// high half, sender address in the low half.
    pub open spec fn spec_key(self) -> u64 {
        (self.target_ip.spec_value() * 0x100000000 + self.sender_ip.spec_value()) as u64
    }

    pub fn key(self) -> (r: u64)
        ensures
            r == self.spec_key(),
    {
        self.target_ip.value() as u64 * 0x100000000 + self.sender_ip.value() as u64
    }
}

/// Packing an address into a 32-bit value loses nothing: two addresses with
/// the same value are the same address.
pub proof fn lemma_ip_value_injective(a: Ipv4Address, b: Ipv4Address)
    requires
        a.spec_value() == b.spec_value(),
    ensures
        a == b,
{
}

/// Distinct address pairs always get distinct tracker keys, so one pair's
/// record is never read or removed on another pair's behalf.
pub proof fn lemma_pair_key_injective(p: AddressPair, q: AddressPair)
    requires
        p.spec_key() == q.spec_key(),
    ensures
        p == q,
{
    lemma_ip_value_injective(p.target_ip, q.target_ip);
    lemma_ip_value_injective(p.sender_ip, q.sender_ip);
}

} // verus!
