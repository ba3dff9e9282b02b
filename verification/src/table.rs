//! The Address Table: an associative store from IPv4 addresses to
//! link-layer addresses, abstracted as a `Map`.
//!
//! At most one live mapping exists per IPv4 address; a later mapping for
//! the same address supersedes the prior one. An upsert that changes the
//! previously known address reports the superseded value so that callers
//! can surface flapping or spoofing; absence of a mapping is a normal
//! "not found" result, never a failure.

use vstd::prelude::*;

use crate::addr::{Ipv4Addr, MacAddr};

verus! {

/// The map described by an entry list: entries are applied in order, so a
/// later entry for the same address wins.
pub open spec fn spec_entries_map(s: Seq<(Ipv4Addr, MacAddr)>) -> Map<Ipv4Addr, MacAddr>
    decreases s.len(),
{
    if s.len() == 0 {
        Map::empty()
    } else {
        spec_entries_map(s.drop_last()).insert(s.last().0, s.last().1)
    }
}

/// No two entries bind the same address.
pub open spec fn spec_unique_keys(s: Seq<(Ipv4Addr, MacAddr)>) -> bool {
    forall|i: int, j: int| 0 <= i < j < s.len() ==> s[i].0 != s[j].0
}

/// What a lookup returns on the abstract map.
pub open spec fn spec_lookup(m: Map<Ipv4Addr, MacAddr>, ipv4: Ipv4Addr) -> Option<MacAddr> {
    if m.contains_key(ipv4) {
        Some(m[ipv4])
    } else {
        None
    }
}

/// The replacement signal of an upsert: the superseded address, reported
/// only when a mapping existed and the new address differs from it.
pub open spec fn spec_upsert_signal(
    m: Map<Ipv4Addr, MacAddr>,
    ipv4: Ipv4Addr,
    mac: MacAddr,
) -> Option<MacAddr> {
    if m.contains_key(ipv4) && m[ipv4] != mac {
        Some(m[ipv4])
    } else {
        None
    }
}

proof fn lemma_entries_map_absent(s: Seq<(Ipv4Addr, MacAddr)>, ipv4: Ipv4Addr)
    requires
        forall|i: int| 0 <= i < s.len() ==> s[i].0 != ipv4,
    ensures
        !spec_entries_map(s).contains_key(ipv4),
    decreases s.len(),
{
    if s.len() > 0 {
        lemma_entries_map_absent(s.drop_last(), ipv4);
    }
}

proof fn lemma_entries_map_found(s: Seq<(Ipv4Addr, MacAddr)>, i: int)
    requires
        spec_unique_keys(s),
        0 <= i < s.len(),
    ensures
        spec_entries_map(s).contains_key(s[i].0),
        spec_entries_map(s)[s[i].0] == s[i].1,
    decreases s.len(),
{
    if i < s.len() - 1 {
        lemma_entries_map_found(s.drop_last(), i);
    }
}

proof fn lemma_entries_map_update(s: Seq<(Ipv4Addr, MacAddr)>, i: int, mac: MacAddr)
    requires
        spec_unique_keys(s),
        0 <= i < s.len(),
    ensures
        spec_entries_map(s.update(i, (s[i].0, mac)))
            =~= spec_entries_map(s).insert(s[i].0, mac),
    decreases s.len(),
{
    let t = s.update(i, (s[i].0, mac));
    if i == s.len() - 1 {
        assert(t.drop_last() =~= s.drop_last());
    } else {
        lemma_entries_map_update(s.drop_last(), i, mac);
        assert(t.drop_last() =~= s.drop_last().update(i, (s[i].0, mac)));
        assert(t.last() == s.last());
    }
}

/// The Address Table. Concurrent sharing (readers alongside a single
/// writer) is the embedding program's concern; the table itself is the
/// store those accesses go through.
pub struct ArpTable {
    entries: Vec<(Ipv4Addr, MacAddr)>,
}

impl View for ArpTable {
    type V = Map<Ipv4Addr, MacAddr>;

    closed spec fn view(&self) -> Map<Ipv4Addr, MacAddr> {
        spec_entries_map(self.entries@)
    }
}

impl ArpTable {
    /// The internal entry list never binds an address twice.
    pub closed spec fn wf(self) -> bool {
        spec_unique_keys(self.entries@)
    }

    /// An empty table.
    pub fn new() -> (r: ArpTable)
        ensures
            r.wf(),
            r@ == Map::<Ipv4Addr, MacAddr>::empty(),
    {
        ArpTable { entries: Vec::new() }
    }

    /// Looks up the link-layer address bound to `ipv4`, if any.
    pub fn get(&self, ipv4: Ipv4Addr) -> (r: Option<MacAddr>)
        requires
            self.wf(),
        ensures
            r == spec_lookup(self@, ipv4),
    {
        let n: usize = self.entries.len();
        let mut i: usize = 0;
        while i < n
            invariant
                i <= n == self.entries@.len(),
                self.wf(),
                forall|j: int| 0 <= j < i ==> self.entries@[j].0 != ipv4,
            decreases n - i,
        {
            let entry = &self.entries[i];
            if entry.0 == ipv4 {
                proof {
                    lemma_entries_map_found(self.entries@, i as int);
                }
                return Some(entry.1);
            }
            i = i + 1;
        }
        proof {
            lemma_entries_map_absent(self.entries@, ipv4);
        }
        None
    }

    /// Binds `ipv4` to `mac`, superseding any existing mapping, and
    /// reports the previously bound address when the binding changed.
    pub fn put(&mut self, ipv4: Ipv4Addr, mac: MacAddr) -> (replaced: Option<MacAddr>)
        requires
            old(self).wf(),
        ensures
            final(self).wf(),
            final(self)@ == old(self)@.insert(ipv4, mac),
            replaced == spec_upsert_signal(old(self)@, ipv4, mac),
    {
        let n: usize = self.entries.len();
        let mut i: usize = 0;
        while i < n
            invariant
                i <= n == self.entries@.len(),
                self == old(self),
                self.wf(),
                forall|j: int| 0 <= j < i ==> self.entries@[j].0 != ipv4,
            decreases n - i,
        {
            let entry = &self.entries[i];
            if entry.0 == ipv4 {
                let previous = entry.1;
                proof {
                    lemma_entries_map_found(self.entries@, i as int);
                    lemma_entries_map_update(self.entries@, i as int, mac);
                }
                self.entries.set(i, (ipv4, mac));
                if previous == mac {
                    return None;
                } else {
                    return Some(previous);
                }
            }
            i = i + 1;
        }
        proof {
            lemma_entries_map_absent(self.entries@, ipv4);
            assert(self.entries@.push((ipv4, mac)).drop_last() =~= self.entries@);
        }
        self.entries.push((ipv4, mac));
        None
    }
}

/// Law: upserting the same pair twice is idempotent. The second upsert
/// leaves the table unchanged, produces no replacement signal, and a
/// lookup afterwards finds exactly that pair.
pub proof fn lemma_upsert_idempotent(m: Map<Ipv4Addr, MacAddr>, ipv4: Ipv4Addr, mac: MacAddr)
    ensures
        m.insert(ipv4, mac).insert(ipv4, mac) == m.insert(ipv4, mac),
        spec_upsert_signal(m.insert(ipv4, mac), ipv4, mac) is None,
        spec_lookup(m.insert(ipv4, mac).insert(ipv4, mac), ipv4) == Some(mac),
{
    assert(m.insert(ipv4, mac).insert(ipv4, mac) =~= m.insert(ipv4, mac));
}

/// Law: upserting a different address for the same key overrides. The
/// second upsert reports the first address as superseded, and a lookup
/// afterwards finds the second one.
pub proof fn lemma_upsert_override(
    m: Map<Ipv4Addr, MacAddr>,
    ipv4: Ipv4Addr,
    mac1: MacAddr,
    mac2: MacAddr,
)
    requires
        mac1 != mac2,
    ensures
        spec_upsert_signal(m.insert(ipv4, mac1), ipv4, mac2) == Some(mac1),
        spec_lookup(m.insert(ipv4, mac1).insert(ipv4, mac2), ipv4) == Some(mac2),
{
}

} // verus!
