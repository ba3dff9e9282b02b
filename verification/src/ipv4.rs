//! The IPv4 handler: locality determination and address-resolution
//! triggering.
//!
//! A packet is inspected only for its destination address. A destination
//! owned by a local interface, or the broadcast address, is delivered
//! locally; any other destination is looked up in the Address Table, and
//! a miss provokes a resolution request for it.

use vstd::prelude::*;

use crate::addr::{spec_ipv4_at, Ipv4Addr, MacAddr};
use crate::arp::ArpRequest;
use crate::ethernet::read_ipv4;
use crate::iface::{collect_ipv4, contains_ipv4, spec_all_ipv4, InterfaceDescriptor};
use crate::table::ArpTable;

verus! {

/// Length in bytes of an IPv4 address.
pub const IPV4_ADDRESS_LENGTH: u8 = 4;

/// Minimum length in bytes of an IPv4 header.
pub const IPV4_HEADER_MIN_LENGTH: usize = 20;

/// An IPv4 packet: the raw header and payload bytes, long enough to hold
/// a header, inspected only for the source and destination fields.
#[derive(Debug)]
pub struct Ipv4Packet {
    bytes: Vec<u8>,
}

impl View for Ipv4Packet {
    type V = Seq<u8>;

    closed spec fn view(&self) -> Seq<u8> {
        self.bytes@
    }
}

impl Ipv4Packet {
    #[verifier::type_invariant]
    spec fn inv(self) -> bool {
        self@.len() >= 20
    }

    /// The source address in the header.
    pub open spec fn spec_source(self) -> Ipv4Addr {
        spec_ipv4_at(self@, 12)
    }

    /// The destination address in the header.
    pub open spec fn spec_destination(self) -> Ipv4Addr {
        spec_ipv4_at(self@, 16)
    }

    /// Parses a packet from raw bytes. Fails exactly on buffers too short
    /// to hold an IPv4 header.
    pub fn parse(bytes: Vec<u8>) -> (r: Option<Ipv4Packet>)
        ensures
            r is Some <==> bytes@.len() >= 20,
            r matches Some(p) ==> p@ == bytes@,
    {
        if bytes.len() < IPV4_HEADER_MIN_LENGTH {
            None
        } else {
            Some(Ipv4Packet { bytes })
        }
    }

    pub fn get_source(&self) -> (r: Ipv4Addr)
        ensures
            r == self.spec_source(),
    {
        proof {
            use_type_invariant(self);
        }
        read_ipv4(&self.bytes, 12)
    }

    pub fn get_destination(&self) -> (r: Ipv4Addr)
        ensures
            r == self.spec_destination(),
    {
        proof {
            use_type_invariant(self);
        }
        read_ipv4(&self.bytes, 16)
    }
}

/// One instruction on the IPv4 handler's queue.
#[derive(Debug)]
pub enum Ipv4HandlerEvent {
    /// An IPv4 packet received from the wire.
    ReceivedPacket(Ipv4Packet),
    /// Drain the queue and stop.
    Shutdown,
}

/// What the handler decides for one packet.
#[derive(Clone, Copy, Debug, PartialEq, Eq, Structural)]
pub enum Ipv4Action {
    /// The destination is ours; accept the packet for local delivery.
    DeliverLocally,
    /// The destination resolves to this next-hop link-layer address.
    Forward(MacAddr),
    /// The destination is unresolved; ask the ARP resolver to resolve it.
    Resolve(ArpRequest),
}

/// A destination is ours when a local interface owns it or it is the
/// broadcast address.
pub open spec fn spec_is_ours(locals: Seq<Ipv4Addr>, dest: Ipv4Addr) -> bool {
    locals.contains(dest) || dest == Ipv4Addr::spec_broadcast()
}

/// The sender fields used in a generated resolution request: the address
/// pair of the first interface that has an IPv4 address assigned, or
/// zero/broadcast placeholders when no interface has one.
pub open spec fn spec_default_sender(ifs: Seq<InterfaceDescriptor>) -> (MacAddr, Ipv4Addr)
    decreases ifs.len(),
{
    if ifs.len() == 0 {
        (MacAddr::spec_zero(), Ipv4Addr::spec_broadcast())
    } else if ifs[0].ipv4_addresses@.len() > 0 {
        (ifs[0].mac, ifs[0].ipv4_addresses@[0])
    } else {
        spec_default_sender(ifs.skip(1))
    }
}

/// Picks the sender fields for a generated resolution request.
pub fn default_sender(ifs: &Vec<InterfaceDescriptor>) -> (r: (MacAddr, Ipv4Addr))
    ensures
        r == spec_default_sender(ifs@),
{
    let n: usize = ifs.len();
    let mut i: usize = 0;
    assert(ifs@.skip(0) =~= ifs@);
    while i < n
        invariant
            i <= n == ifs@.len(),
            spec_default_sender(ifs@) == spec_default_sender(ifs@.skip(i as int)),
        decreases n - i,
    {
        let d = &ifs[i];
        assert(ifs@.skip(i as int)[0] == ifs@[i as int]);
        if d.ipv4_addresses.len() > 0 {
            return (d.mac, d.ipv4_addresses[0]);
        }
        assert(ifs@.skip(i as int).skip(1) =~= ifs@.skip(i as int + 1));
        i = i + 1;
    }
    (MacAddr::zero(), Ipv4Addr::broadcast())
}

/// What the handler decides for a packet with destination `dest`, given
/// the local addresses and the current Address Table.
pub open spec fn spec_handle_action(
    ifs: Seq<InterfaceDescriptor>,
    locals: Seq<Ipv4Addr>,
    m: Map<Ipv4Addr, MacAddr>,
    dest: Ipv4Addr,
) -> Ipv4Action {
    if spec_is_ours(locals, dest) {
        Ipv4Action::DeliverLocally
    } else if m.contains_key(dest) {
        Ipv4Action::Forward(m[dest])
    } else {
        Ipv4Action::Resolve(
            ArpRequest {
                sender_mac_address: spec_default_sender(ifs).0,
                sender_ipv4_address: spec_default_sender(ifs).1,
                target_ipv4_address: dest,
            },
        )
    }
}

/// The action one queue event decides, if any.
pub open spec fn spec_event_action(
    ifs: Seq<InterfaceDescriptor>,
    locals: Seq<Ipv4Addr>,
    m: Map<Ipv4Addr, MacAddr>,
    ev: Ipv4HandlerEvent,
) -> Option<Ipv4Action> {
    match ev {
        Ipv4HandlerEvent::ReceivedPacket(p) => Some(
            spec_handle_action(ifs, locals, m, spec_ipv4_at(p@, 16)),
        ),
        Ipv4HandlerEvent::Shutdown => None,
    }
}

/// The number of events processed before the first shutdown instruction.
pub open spec fn spec_drain_count(evs: Seq<Ipv4HandlerEvent>) -> int
    decreases evs.len(),
{
    if evs.len() == 0 {
        0
    } else if evs[0] is Shutdown {
        0
    } else {
        1 + spec_drain_count(evs.skip(1))
    }
}

/// The actions a sequence of queue events decides, in order.
pub open spec fn spec_actions_after(
    ifs: Seq<InterfaceDescriptor>,
    locals: Seq<Ipv4Addr>,
    m: Map<Ipv4Addr, MacAddr>,
    evs: Seq<Ipv4HandlerEvent>,
) -> Seq<Ipv4Action>
    decreases evs.len(),
{
    if evs.len() == 0 {
        Seq::empty()
    } else {
        spec_actions_after(ifs, locals, m, evs.drop_last()) + match spec_event_action(
            ifs,
            locals,
            m,
            evs.last(),
        ) {
            Some(a) => seq![a],
            None => Seq::<Ipv4Action>::empty(),
        }
    }
}

proof fn lemma_drain_count_at(evs: Seq<Ipv4HandlerEvent>, i: int)
    requires
        0 <= i <= evs.len(),
        forall|j: int| 0 <= j < i ==> !(evs[j] is Shutdown),
        i < evs.len() ==> evs[i] is Shutdown,
    ensures
        spec_drain_count(evs) == i,
    decreases i,
{
    if i > 0 {
        assert(!(evs[0] is Shutdown));
        assert forall|j: int| 0 <= j < i - 1 implies !(evs.skip(1)[j] is Shutdown) by {
            assert(evs.skip(1)[j] == evs[j + 1]);
        }
        assert(i - 1 < evs.skip(1).len() ==> evs.skip(1)[i - 1] is Shutdown);
        lemma_drain_count_at(evs.skip(1), i - 1);
    }
}

/// The IPv4 handler: the interfaces it serves and the locally-owned
/// addresses collected from them.
pub struct Ipv4Handler {
    pub interfaces: Vec<InterfaceDescriptor>,
    pub ipv4_addresses: Vec<Ipv4Addr>,
}

impl Ipv4Handler {
    /// Collects the locally-owned IPv4 addresses from the interfaces.
    pub fn new(interfaces: Vec<InterfaceDescriptor>) -> (r: Ipv4Handler)
        ensures
            r.interfaces@ == interfaces@,
            r.ipv4_addresses@ == spec_all_ipv4(interfaces@),
    {
        let ipv4_addresses = collect_ipv4(&interfaces);
        Ipv4Handler { interfaces, ipv4_addresses }
    }

    /// Law: a destination equal to a locally-owned address, or to the
    /// broadcast address, is classified local; any other destination is
    /// classified non-local.
    pub fn determine_if_ours(&self, packet: &Ipv4Packet) -> (r: bool)
        ensures
            r == spec_is_ours(self.ipv4_addresses@, packet.spec_destination()),
    {
        let dest = packet.get_destination();
        contains_ipv4(&self.ipv4_addresses, dest) || dest.is_broadcast()
    }

    /// Decides what to do with one inbound packet: deliver it locally,
    /// forward it to the resolved next hop, or — on a resolution miss —
    /// emit exactly one resolution request naming the packet's
    /// destination as the target.
    pub fn handle_received_packet(&self, table: &ArpTable, packet: &Ipv4Packet) -> (r: Ipv4Action)
        requires
            table.wf(),
        ensures
            r == spec_handle_action(
                self.interfaces@,
                self.ipv4_addresses@,
                table@,
                packet.spec_destination(),
            ),
    {
        if self.determine_if_ours(packet) {
            return Ipv4Action::DeliverLocally;
        }
        let dest = packet.get_destination();
        match table.get(dest) {
            Some(mac) => Ipv4Action::Forward(mac),
            None => {
                let (sender_mac_address, sender_ipv4_address) = default_sender(&self.interfaces);
                Ipv4Action::Resolve(
                    ArpRequest {
                        sender_mac_address,
                        sender_ipv4_address,
                        target_ipv4_address: dest,
                    },
                )
            },
        }
    }

    /// Handles one queue event and returns the action it decides, if any.
    pub fn handle_event(&self, table: &ArpTable, event: &Ipv4HandlerEvent) -> (r: Option<
        Ipv4Action,
    >)
        requires
            table.wf(),
        ensures
            r == spec_event_action(self.interfaces@, self.ipv4_addresses@, table@, *event),
    {
        match event {
            Ipv4HandlerEvent::ReceivedPacket(packet) => {
                proof {
                    use_type_invariant(packet);
                }
                Some(self.handle_received_packet(table, packet))
            },
            Ipv4HandlerEvent::Shutdown => None,
        }
    }

    /// Law: processing a queue drains it in order up to the first
    /// shutdown instruction. Every packet enqueued ahead of the shutdown
    /// is decided in order; no event enqueued behind the shutdown has any
    /// effect. The handler never writes the Address Table.
    #[verifier::loop_isolation(false)]
    pub fn run(&self, table: &ArpTable, events: &Vec<Ipv4HandlerEvent>) -> (outputs: Vec<
        Ipv4Action,
    >)
        requires
            table.wf(),
        ensures
            outputs@ == spec_actions_after(
                self.interfaces@,
                self.ipv4_addresses@,
                table@,
                events@.take(spec_drain_count(events@)),
            ),
    {
        let n: usize = events.len();
        let mut outputs: Vec<Ipv4Action> = Vec::new();
        let mut i: usize = 0;
        while i < n
            invariant
                i <= n,
                forall|j: int| 0 <= j < i ==> !(events@[j] is Shutdown),
                outputs@ == spec_actions_after(
                    self.interfaces@,
                    self.ipv4_addresses@,
                    table@,
                    events@.take(i as int),
                ),
            decreases n - i,
        {
            let event = &events[i];
            match event {
                Ipv4HandlerEvent::Shutdown => {
                    proof {
                        lemma_drain_count_at(events@, i as int);
                    }
                    return outputs;
                },
                _ => {
                    proof {
                        assert(events@.take(i as int + 1).drop_last() =~= events@.take(i as int));
                        assert(events@.take(i as int + 1).last() == events@[i as int]);
                    }
                    let out = self.handle_event(table, event);
                    match out {
                        Some(action) => {
                            outputs.push(action);
                        },
                        None => {},
                    }
                    assert(outputs@ =~= spec_actions_after(
                        self.interfaces@,
                        self.ipv4_addresses@,
                        table@,
                        events@.take(i as int + 1),
                    ));
                    i = i + 1;
                },
            }
        }
        proof {
            lemma_drain_count_at(events@, n as int);
            assert(events@.take(n as int) =~= events@);
        }
        outputs
    }
}

} // verus!
