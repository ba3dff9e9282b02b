//! Link-layer (MAC) and IPv4 addresses as plain octets.

use vstd::prelude::*;

verus! {

/// A 48-bit link-layer (MAC) address, stored as six octets.
#[derive(Clone, Copy, PartialEq, Eq, Structural, Debug)]
pub struct MacAddr {
    pub o0: u8,
    pub o1: u8,
    pub o2: u8,
    pub o3: u8,
    pub o4: u8,
    pub o5: u8,
}

impl MacAddr {
    /// The broadcast address `ff:ff:ff:ff:ff:ff`.
    pub open spec fn spec_broadcast() -> MacAddr {
        MacAddr { o0: 0xff, o1: 0xff, o2: 0xff, o3: 0xff, o4: 0xff, o5: 0xff }
    }

    /// The all-zero address `00:00:00:00:00:00`.
    pub open spec fn spec_zero() -> MacAddr {
        MacAddr { o0: 0, o1: 0, o2: 0, o3: 0, o4: 0, o5: 0 }
    }

    pub fn new(o0: u8, o1: u8, o2: u8, o3: u8, o4: u8, o5: u8) -> (r: MacAddr)
        ensures
            r == (MacAddr { o0, o1, o2, o3, o4, o5 }),
    {
        MacAddr { o0, o1, o2, o3, o4, o5 }
    }

    pub fn broadcast() -> (r: MacAddr)
        ensures
            r == Self::spec_broadcast(),
    {
        MacAddr { o0: 0xff, o1: 0xff, o2: 0xff, o3: 0xff, o4: 0xff, o5: 0xff }
    }

    pub fn zero() -> (r: MacAddr)
        ensures
            r == Self::spec_zero(),
    {
        MacAddr { o0: 0, o1: 0, o2: 0, o3: 0, o4: 0, o5: 0 }
    }

    pub fn is_broadcast(&self) -> (r: bool)
        ensures
            r == (*self == Self::spec_broadcast()),
    {
        self.o0 == 0xff && self.o1 == 0xff && self.o2 == 0xff && self.o3 == 0xff
            && self.o4 == 0xff && self.o5 == 0xff
    }

    pub fn is_zero(&self) -> (r: bool)
        ensures
            r == (*self == Self::spec_zero()),
    {
        self.o0 == 0 && self.o1 == 0 && self.o2 == 0 && self.o3 == 0 && self.o4 == 0
            && self.o5 == 0
    }
}

/// The six octets of a MAC address in wire order.
pub open spec fn spec_mac_bytes(m: MacAddr) -> Seq<u8> {
    seq![m.o0, m.o1, m.o2, m.o3, m.o4, m.o5]
}

/// The MAC address read from `b` at offset `i`.
pub open spec fn spec_mac_at(b: Seq<u8>, i: int) -> MacAddr {
    MacAddr {
        o0: b[i],
        o1: b[i + 1],
        o2: b[i + 2],
        o3: b[i + 3],
        o4: b[i + 4],
        o5: b[i + 5],
    }
}

/// An IPv4 address, stored as four octets in wire order.
#[derive(Clone, Copy, PartialEq, Eq, Structural, Debug)]
pub struct Ipv4Addr {
    pub o0: u8,
    pub o1: u8,
    pub o2: u8,
    pub o3: u8,
}

impl Ipv4Addr {
    /// The limited-broadcast address `255.255.255.255`.
    pub open spec fn spec_broadcast() -> Ipv4Addr {
        Ipv4Addr { o0: 0xff, o1: 0xff, o2: 0xff, o3: 0xff }
    }

    pub fn new(o0: u8, o1: u8, o2: u8, o3: u8) -> (r: Ipv4Addr)
        ensures
            r == (Ipv4Addr { o0, o1, o2, o3 }),
    {
        Ipv4Addr { o0, o1, o2, o3 }
    }

    pub fn broadcast() -> (r: Ipv4Addr)
        ensures
            r == Self::spec_broadcast(),
    {
        Ipv4Addr { o0: 0xff, o1: 0xff, o2: 0xff, o3: 0xff }
    }

    pub fn is_broadcast(&self) -> (r: bool)
        ensures
            r == (*self == Self::spec_broadcast()),
    {
        self.o0 == 0xff && self.o1 == 0xff && self.o2 == 0xff && self.o3 == 0xff
    }
}

/// The four octets of an IPv4 address in wire order.
pub open spec fn spec_ipv4_bytes(a: Ipv4Addr) -> Seq<u8> {
    seq![a.o0, a.o1, a.o2, a.o3]
}

/// The IPv4 address read from `b` at offset `i`.
pub open spec fn spec_ipv4_at(b: Seq<u8>, i: int) -> Ipv4Addr {
    Ipv4Addr { o0: b[i], o1: b[i + 1], o2: b[i + 2], o3: b[i + 3] }
}

/// The big-endian 16-bit value read from `b` at offset `i`.
pub open spec fn spec_be16_at(b: Seq<u8>, i: int) -> u16 {
    (b[i] * 256 + b[i + 1]) as u16
}

/// A 16-bit value as two bytes in big-endian order.
pub open spec fn spec_be16_bytes(v: u16) -> Seq<u8> {
    seq![(v / 256) as u8, (v % 256) as u8]
}

} // verus!
