//! Interface descriptors: the immutable picture of the host's network
//! interfaces that the core is given at startup.

use vstd::prelude::*;

use crate::addr::{Ipv4Addr, MacAddr};

verus! {

/// One network interface: its platform index, link-layer address, and the
/// IPv4 addresses assigned to it. Loaded once at startup and immutable for
/// the lifetime of the core.
#[derive(Clone, Debug)]
pub struct InterfaceDescriptor {
    pub index: u32,
    pub mac: MacAddr,
    pub ipv4_addresses: Vec<Ipv4Addr>,
}

/// The link-layer address of the first interface with platform index
/// `index`, if any.
pub open spec fn spec_mac_for_index(ifs: Seq<InterfaceDescriptor>, index: u32) -> Option<MacAddr>
    decreases ifs.len(),
{
    if ifs.len() == 0 {
        None
    } else if ifs[0].index == index {
        Some(ifs[0].mac)
    } else {
        spec_mac_for_index(ifs.skip(1), index)
    }
}

/// The link-layer address of the interface owning `ipv4`, if any. When
/// several interfaces share the address, the latest one in the list owns
/// it, as in a map built by inserting each interface's addresses in
/// order.
pub open spec fn spec_local_mac(ifs: Seq<InterfaceDescriptor>, ipv4: Ipv4Addr) -> Option<MacAddr>
    decreases ifs.len(),
{
    if ifs.len() == 0 {
        None
    } else if ifs.last().ipv4_addresses@.contains(ipv4) {
        Some(ifs.last().mac)
    } else {
        spec_local_mac(ifs.drop_last(), ipv4)
    }
}

/// All IPv4 addresses assigned to the interfaces, in interface order.
pub open spec fn spec_all_ipv4(ifs: Seq<InterfaceDescriptor>) -> Seq<Ipv4Addr>
    decreases ifs.len(),
{
    if ifs.len() == 0 {
        Seq::empty()
    } else {
        spec_all_ipv4(ifs.drop_last()) + ifs.last().ipv4_addresses@
    }
}

/// Whether `v` holds `ipv4`.
pub fn contains_ipv4(v: &Vec<Ipv4Addr>, ipv4: Ipv4Addr) -> (r: bool)
    ensures
        r == v@.contains(ipv4),
{
    let n: usize = v.len();
    let mut i: usize = 0;
    while i < n
        invariant
            i <= n == v@.len(),
            forall|j: int| 0 <= j < i ==> v@[j] != ipv4,
        decreases n - i,
    {
        if v[i] == ipv4 {
            return true;
        }
        i = i + 1;
    }
    false
}

/// Finds the link-layer address of the interface with the given platform
/// index.
pub fn mac_for_index(ifs: &Vec<InterfaceDescriptor>, index: u32) -> (r: Option<MacAddr>)
    ensures
        r == spec_mac_for_index(ifs@, index),
{
    let n: usize = ifs.len();
    let mut i: usize = 0;
    assert(ifs@.skip(0) =~= ifs@);
    while i < n
        invariant
            i <= n == ifs@.len(),
            spec_mac_for_index(ifs@, index) == spec_mac_for_index(ifs@.skip(i as int), index),
        decreases n - i,
    {
        let d = &ifs[i];
        assert(ifs@.skip(i as int)[0] == ifs@[i as int]);
        if d.index == index {
            return Some(d.mac);
        }
        assert(ifs@.skip(i as int).skip(1) =~= ifs@.skip(i as int + 1));
        i = i + 1;
    }
    None
}

/// Finds the link-layer address of the interface that owns `ipv4`,
/// scanning from the latest interface so that a shared address belongs
/// to the last owner in the list.
pub fn local_mac(ifs: &Vec<InterfaceDescriptor>, ipv4: Ipv4Addr) -> (r: Option<MacAddr>)
    ensures
        r == spec_local_mac(ifs@, ipv4),
{
    let n: usize = ifs.len();
    let mut i: usize = n;
    assert(ifs@.take(n as int) =~= ifs@);
    while i > 0
        invariant
            i <= n == ifs@.len(),
            spec_local_mac(ifs@, ipv4) == spec_local_mac(ifs@.take(i as int), ipv4),
        decreases i,
    {
        i = i - 1;
        let d = &ifs[i];
        assert(ifs@.take(i as int + 1).last() == ifs@[i as int]);
        assert(ifs@.take(i as int + 1).drop_last() =~= ifs@.take(i as int));
        if contains_ipv4(&d.ipv4_addresses, ipv4) {
            return Some(d.mac);
        }
    }
    None
}

/// Collects the IPv4 addresses of all interfaces into one list, in
/// interface order.
pub fn collect_ipv4(ifs: &Vec<InterfaceDescriptor>) -> (r: Vec<Ipv4Addr>)
    ensures
        r@ == spec_all_ipv4(ifs@),
{
    let n: usize = ifs.len();
    let mut out: Vec<Ipv4Addr> = Vec::new();
    let mut i: usize = 0;
    while i < n
        invariant
            i <= n == ifs@.len(),
            out@ == spec_all_ipv4(ifs@.take(i as int)),
        decreases n - i,
    {
        let d = &ifs[i];
        let m: usize = d.ipv4_addresses.len();
        let mut j: usize = 0;
        while j < m
            invariant
                j <= m == ifs@[i as int].ipv4_addresses@.len(),
                i < ifs@.len(),
                out@ == spec_all_ipv4(ifs@.take(i as int))
                    + ifs@[i as int].ipv4_addresses@.take(j as int),
                d == ifs@[i as int],
            decreases m - j,
        {
            out.push(d.ipv4_addresses[j]);
            assert(out@ =~= spec_all_ipv4(ifs@.take(i as int))
                + ifs@[i as int].ipv4_addresses@.take(j as int + 1));
            j = j + 1;
        }
        proof {
            let t = ifs@.take(i as int + 1);
            assert(t.drop_last() =~= ifs@.take(i as int));
            assert(t.last() == ifs@[i as int]);
            assert(ifs@[i as int].ipv4_addresses@.take(m as int)
                =~= ifs@[i as int].ipv4_addresses@);
        }
        i = i + 1;
    }
    assert(ifs@.take(n as int) =~= ifs@);
    out
}

} // verus!
