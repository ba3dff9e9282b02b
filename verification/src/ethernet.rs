//! Ethernet frames: wire format and acceptance filter.
//!
//! A frame is 6 bytes of destination, 6 bytes of source, a 2-byte
//! big-endian ethertype, and the payload.

use vstd::prelude::*;

use crate::addr::{
    spec_be16_at, spec_be16_bytes, spec_ipv4_at, spec_ipv4_bytes, spec_mac_at, spec_mac_bytes,
    Ipv4Addr, MacAddr,
};

verus! {

/// Ethertype of an IPv4 payload.
pub const ETHERNET_TYPE_IP: u16 = 0x0800;

/// Ethertype of an ARP payload.
pub const ETHERNET_TYPE_ARP: u16 = 0x0806;

/// Length in bytes of a link-layer address.
pub const ETHERNET_ADDRESS_LENGTH: u8 = 6;

/// Length in bytes of an Ethernet header.
pub const ETHERNET_HEADER_LENGTH: usize = 14;

/// A reassembled Ethernet frame.
#[derive(Clone, Debug, PartialEq, Eq)]
pub struct EthernetFrame {
    pub destination: MacAddr,
    pub source: MacAddr,
    pub ethertype: u16,
    pub payload: Vec<u8>,
}

impl EthernetFrame {
    /// A frame is ours when it is addressed to the receiving interface or
    /// to the broadcast address.
    pub open spec fn spec_accepted_by(self, interface_mac: MacAddr) -> bool {
        self.destination == interface_mac || self.destination == MacAddr::spec_broadcast()
    }
}

/// The wire representation of a frame.
pub open spec fn spec_frame_bytes(f: EthernetFrame) -> Seq<u8> {
    spec_mac_bytes(f.destination) + spec_mac_bytes(f.source) + spec_be16_bytes(f.ethertype)
        + f.payload@
}

/// Reads the six bytes at offset `i` as a MAC address.
pub fn read_mac(b: &Vec<u8>, i: usize) -> (r: MacAddr)
    requires
        i + 6 <= b@.len(),
    ensures
        r == spec_mac_at(b@, i as int),
{
    let n: usize = b.len();
    assert(i + 6 <= n);
    MacAddr {
        o0: b[i],
        o1: b[i + 1],
        o2: b[i + 2],
        o3: b[i + 3],
        o4: b[i + 4],
        o5: b[i + 5],
    }
}

/// Reads the two bytes at offset `i` as a big-endian 16-bit value.
pub fn read_be16(b: &Vec<u8>, i: usize) -> (r: u16)
    requires
        i + 2 <= b@.len(),
    ensures
        r == spec_be16_at(b@, i as int),
{
    let n: usize = b.len();
    assert(i + 2 <= n);
    (b[i] as u16) * 256 + (b[i + 1] as u16)
}

/// Reads the four bytes at offset `i` as an IPv4 address.
pub fn read_ipv4(b: &Vec<u8>, i: usize) -> (r: Ipv4Addr)
    requires
        i + 4 <= b@.len(),
    ensures
        r == spec_ipv4_at(b@, i as int),
{
    let n: usize = b.len();
    assert(i + 4 <= n);
    Ipv4Addr { o0: b[i], o1: b[i + 1], o2: b[i + 2], o3: b[i + 3] }
}

/// Appends the four octets of `a` to `out`.
pub fn push_ipv4(out: &mut Vec<u8>, a: Ipv4Addr)
    ensures
        final(out)@ == old(out)@ + spec_ipv4_bytes(a),
{
    out.push(a.o0);
    out.push(a.o1);
    out.push(a.o2);
    out.push(a.o3);
    assert(out@ =~= old(out)@ + spec_ipv4_bytes(a));
}

/// Appends the six octets of `m` to `out`.
pub fn push_mac(out: &mut Vec<u8>, m: MacAddr)
    ensures
        final(out)@ == old(out)@ + spec_mac_bytes(m),
{
    out.push(m.o0);
    out.push(m.o1);
    out.push(m.o2);
    out.push(m.o3);
    out.push(m.o4);
    out.push(m.o5);
    assert(out@ =~= old(out)@ + spec_mac_bytes(m));
}

/// Appends `v` to `out` as two bytes in big-endian order.
pub fn push_be16(out: &mut Vec<u8>, v: u16)
    ensures
        final(out)@ == old(out)@ + spec_be16_bytes(v),
{
    out.push((v / 256) as u8);
    out.push((v % 256) as u8);
    assert(out@ =~= old(out)@ + spec_be16_bytes(v));
}

/// Reconstructs a frame from captured bytes. Fails exactly on buffers too
/// short to hold an Ethernet header.
pub fn parse_ethernet_frame(b: &Vec<u8>) -> (r: Option<EthernetFrame>)
    ensures
        r is Some <==> b@.len() >= 14,
        r matches Some(f) ==> {
            &&& f.destination == spec_mac_at(b@, 0)
            &&& f.source == spec_mac_at(b@, 6)
            &&& f.ethertype == spec_be16_at(b@, 12)
            &&& f.payload@ == b@.skip(14)
        },
{
    if b.len() < ETHERNET_HEADER_LENGTH {
        return None;
    }
    let destination = read_mac(b, 0);
    let source = read_mac(b, 6);
    let ethertype = read_be16(b, 12);
    let mut payload: Vec<u8> = Vec::new();
    let mut i: usize = 14;
    while i < b.len()
        invariant
            14 <= i <= b@.len(),
            payload@ == b@.subrange(14, i as int),
        decreases b@.len() - i,
    {
        payload.push(b[i]);
        assert(payload@ =~= b@.subrange(14, i + 1));
        i = i + 1;
    }
    assert(payload@ =~= b@.skip(14));
    Some(EthernetFrame { destination, source, ethertype, payload })
}

/// Serializes a frame to its wire representation.
pub fn frame_to_bytes(f: &EthernetFrame) -> (r: Vec<u8>)
    ensures
        r@ == spec_frame_bytes(*f),
{
    let mut out: Vec<u8> = Vec::new();
    push_mac(&mut out, f.destination);
    push_mac(&mut out, f.source);
    push_be16(&mut out, f.ethertype);
    let ghost header: Seq<u8> = spec_mac_bytes(f.destination) + spec_mac_bytes(f.source)
        + spec_be16_bytes(f.ethertype);
    let mut i: usize = 0;
    while i < f.payload.len()
        invariant
            i <= f.payload@.len(),
            out@ == header + f.payload@.take(i as int),
        decreases f.payload@.len() - i,
    {
        out.push(f.payload[i]);
        assert(out@ =~= header + f.payload@.take(i + 1));
        i = i + 1;
    }
    assert(out@ =~= spec_frame_bytes(*f));
    out
}

/// Law: the wire representation of a frame parses back to that frame.
pub proof fn lemma_frame_round_trip(f: EthernetFrame)
    ensures
        ({
            let b = spec_frame_bytes(f);
            &&& b.len() == 14 + f.payload@.len()
            &&& spec_mac_at(b, 0) == f.destination
            &&& spec_mac_at(b, 6) == f.source
            &&& spec_be16_at(b, 12) == f.ethertype
            &&& b.skip(14) == f.payload@
        }),
{
    let b = spec_frame_bytes(f);
    assert(b.skip(14) =~= f.payload@);
    assert(f.ethertype / 256 <= 255);
    assert(spec_be16_at(b, 12) == f.ethertype);
}

/// A frame is handled only when destined to the receiving interface's own
/// address or to the broadcast address; anything else is not ours.
pub fn should_handle_packet(frame: &EthernetFrame, interface_mac: MacAddr) -> (r: bool)
    ensures
        r == frame.spec_accepted_by(interface_mac),
{
    frame.destination == interface_mac || frame.destination.is_broadcast()
}

} // verus!
