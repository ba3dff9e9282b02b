//! The ARP resolver: wire format of ARP messages, learning observed
//! sender bindings into the Address Table, answering requests for
//! locally-owned addresses, and constructing outbound requests.

use vstd::prelude::*;

use crate::addr::{
    spec_be16_at, spec_be16_bytes, spec_ipv4_at, spec_ipv4_bytes, spec_mac_at, spec_mac_bytes,
    Ipv4Addr, MacAddr,
};
use crate::ethernet::{
    push_be16, push_ipv4, push_mac, read_be16, read_ipv4, read_mac, EthernetFrame,
    ETHERNET_ADDRESS_LENGTH, ETHERNET_TYPE_ARP, ETHERNET_TYPE_IP,
};
use crate::iface::{local_mac, spec_local_mac, InterfaceDescriptor};
use crate::ipv4::IPV4_ADDRESS_LENGTH;
use crate::table::{spec_upsert_signal, ArpTable};

verus! {

/// ARP hardware type for Ethernet.
pub const ARP_HARDWARE_TYPE_ETHERNET: u16 = 0x0001;

/// ARP operation code of a request.
pub const ARP_OPERATION_CODE_REQUEST: u16 = 0x0001;

/// ARP operation code of a reply.
pub const ARP_OPERATION_CODE_REPLY: u16 = 0x0002;

/// Length in bytes of an ARP message for Ethernet/IPv4.
pub const ARP_MESSAGE_LENGTH: usize = 28;

/// An ARP message. Inbound messages are parsed read-only; outbound
/// requests and replies are constructed fresh.
#[derive(Clone, Copy, Debug, PartialEq, Eq, Structural)]
pub struct ArpMessage {
    pub hardware_type: u16,
    pub protocol_type: u16,
    pub hw_addr_len: u8,
    pub proto_addr_len: u8,
    pub operation: u16,
    pub sender_hw_addr: MacAddr,
    pub sender_proto_addr: Ipv4Addr,
    pub target_hw_addr: MacAddr,
    pub target_proto_addr: Ipv4Addr,
}

/// The ARP message read from the 28 bytes at the start of `b`.
pub open spec fn spec_arp_message_at(b: Seq<u8>) -> ArpMessage {
    ArpMessage {
        hardware_type: spec_be16_at(b, 0),
        protocol_type: spec_be16_at(b, 2),
        hw_addr_len: b[4],
        proto_addr_len: b[5],
        operation: spec_be16_at(b, 6),
        sender_hw_addr: spec_mac_at(b, 8),
        sender_proto_addr: spec_ipv4_at(b, 14),
        target_hw_addr: spec_mac_at(b, 18),
        target_proto_addr: spec_ipv4_at(b, 24),
    }
}

/// The wire representation of an ARP message.
pub open spec fn spec_arp_bytes(m: ArpMessage) -> Seq<u8> {
    spec_be16_bytes(m.hardware_type) + spec_be16_bytes(m.protocol_type) + seq![m.hw_addr_len]
        + seq![m.proto_addr_len] + spec_be16_bytes(m.operation) + spec_mac_bytes(m.sender_hw_addr)
        + spec_ipv4_bytes(m.sender_proto_addr) + spec_mac_bytes(m.target_hw_addr)
        + spec_ipv4_bytes(m.target_proto_addr)
}

/// Parses an ARP message. Fails exactly on buffers too short to hold one;
/// trailing bytes are ignored.
pub fn parse_arp_message(b: &Vec<u8>) -> (r: Option<ArpMessage>)
    ensures
        r is Some <==> b@.len() >= 28,
        r matches Some(m) ==> m == spec_arp_message_at(b@),
{
    if b.len() < ARP_MESSAGE_LENGTH {
        return None;
    }
    Some(
        ArpMessage {
            hardware_type: read_be16(b, 0),
            protocol_type: read_be16(b, 2),
            hw_addr_len: b[4],
            proto_addr_len: b[5],
            operation: read_be16(b, 6),
            sender_hw_addr: read_mac(b, 8),
            sender_proto_addr: read_ipv4(b, 14),
            target_hw_addr: read_mac(b, 18),
            target_proto_addr: read_ipv4(b, 24),
        },
    )
}

/// Serializes an ARP message to its 28-byte wire representation.
pub fn arp_message_to_bytes(m: &ArpMessage) -> (r: Vec<u8>)
    ensures
        r@ == spec_arp_bytes(*m),
        r@.len() == 28,
{
    let mut out: Vec<u8> = Vec::new();
    push_be16(&mut out, m.hardware_type);
    push_be16(&mut out, m.protocol_type);
    out.push(m.hw_addr_len);
    out.push(m.proto_addr_len);
    push_be16(&mut out, m.operation);
    push_mac(&mut out, m.sender_hw_addr);
    push_ipv4(&mut out, m.sender_proto_addr);
    push_mac(&mut out, m.target_hw_addr);
    push_ipv4(&mut out, m.target_proto_addr);
    assert(out@ =~= spec_arp_bytes(*m));
    out
}

/// Law: the wire representation of an ARP message parses back to that
/// message.
pub proof fn lemma_arp_round_trip(m: ArpMessage)
    ensures
        spec_arp_bytes(m).len() == 28,
        spec_arp_message_at(spec_arp_bytes(m)) == m,
{
    let b = spec_arp_bytes(m);
    assert(m.hardware_type / 256 <= 255);
    assert(m.protocol_type / 256 <= 255);
    assert(m.operation / 256 <= 255);
    assert(spec_be16_at(b, 0) == m.hardware_type);
    assert(spec_be16_at(b, 2) == m.protocol_type);
    assert(spec_be16_at(b, 6) == m.operation);
    assert(spec_mac_at(b, 8) == m.sender_hw_addr);
    assert(spec_ipv4_at(b, 14) == m.sender_proto_addr);
    assert(spec_mac_at(b, 18) == m.target_hw_addr);
    assert(spec_ipv4_at(b, 24) == m.target_proto_addr);
}

/// The parameters needed to emit an ARP request on behalf of the IPv4
/// handler.
#[derive(Clone, Copy, Debug, PartialEq, Eq, Structural)]
pub struct ArpRequest {
    pub sender_mac_address: MacAddr,
    pub sender_ipv4_address: Ipv4Addr,
    pub target_ipv4_address: Ipv4Addr,
}

/// One instruction on the ARP resolver's queue.
#[derive(Clone, Copy, Debug)]
pub enum ArpHandlerEvent {
    /// An ARP message received from the wire.
    ReceivedPacket(ArpMessage),
    /// An instruction to emit an ARP request for an unresolved address.
    SendArpRequest(ArpRequest),
    /// Drain the queue and stop.
    Shutdown,
}

/// The request message built for a resolution request: operation request,
/// the caller-supplied sender fields, and a broadcast target.
pub open spec fn spec_request_message(request: ArpRequest) -> ArpMessage {
    ArpMessage {
        hardware_type: ARP_HARDWARE_TYPE_ETHERNET,
        protocol_type: ETHERNET_TYPE_IP,
        hw_addr_len: ETHERNET_ADDRESS_LENGTH,
        proto_addr_len: IPV4_ADDRESS_LENGTH,
        operation: ARP_OPERATION_CODE_REQUEST,
        sender_hw_addr: request.sender_mac_address,
        sender_proto_addr: request.sender_ipv4_address,
        target_hw_addr: MacAddr::spec_broadcast(),
        target_proto_addr: request.target_ipv4_address,
    }
}

/// The reply to `msg`: sender fields name the matching local address,
/// target fields copy the request's sender fields.
pub open spec fn spec_reply_message(local_mac: MacAddr, msg: ArpMessage) -> ArpMessage {
    ArpMessage {
        hardware_type: ARP_HARDWARE_TYPE_ETHERNET,
        protocol_type: ETHERNET_TYPE_IP,
        hw_addr_len: ETHERNET_ADDRESS_LENGTH,
        proto_addr_len: IPV4_ADDRESS_LENGTH,
        operation: ARP_OPERATION_CODE_REPLY,
        sender_hw_addr: local_mac,
        sender_proto_addr: msg.target_proto_addr,
        target_hw_addr: msg.sender_hw_addr,
        target_proto_addr: msg.sender_proto_addr,
    }
}

/// Whether an inbound message teaches us the sender's binding: ARP learns
/// from anything it sees, requests and replies alike.
pub open spec fn spec_learns(msg: ArpMessage) -> bool {
    msg.operation == ARP_OPERATION_CODE_REQUEST || msg.operation == ARP_OPERATION_CODE_REPLY
}

/// The table after an inbound message: the sender binding is upserted for
/// requests and replies; unsupported operations leave it unchanged.
pub open spec fn spec_packet_table(m: Map<Ipv4Addr, MacAddr>, msg: ArpMessage) -> Map<
    Ipv4Addr,
    MacAddr,
> {
    if spec_learns(msg) {
        m.insert(msg.sender_proto_addr, msg.sender_hw_addr)
    } else {
        m
    }
}

/// The replacement signal an inbound message produces: the superseded
/// link-layer address, exactly when learning the sender binding changed
/// a previously known one. Callers surface it to expose flapping or
/// spoofing.
pub open spec fn spec_packet_replaced(m: Map<Ipv4Addr, MacAddr>, msg: ArpMessage) -> Option<
    MacAddr,
> {
    if spec_learns(msg) {
        spec_upsert_signal(m, msg.sender_proto_addr, msg.sender_hw_addr)
    } else {
        None
    }
}

/// The reply an inbound message provokes: exactly the requests whose
/// target is a locally-owned address are answered.
pub open spec fn spec_packet_reply(
    ifs: Seq<InterfaceDescriptor>,
    msg: ArpMessage,
) -> Option<ArpMessage> {
    if msg.operation == ARP_OPERATION_CODE_REQUEST {
        match spec_local_mac(ifs, msg.target_proto_addr) {
            Some(mac) => Some(spec_reply_message(mac, msg)),
            None => None,
        }
    } else {
        None
    }
}

/// The table after one queue event.
pub open spec fn spec_event_table(m: Map<Ipv4Addr, MacAddr>, ev: ArpHandlerEvent) -> Map<
    Ipv4Addr,
    MacAddr,
> {
    match ev {
        ArpHandlerEvent::ReceivedPacket(msg) => spec_packet_table(m, msg),
        _ => m,
    }
}

/// The outbound message one queue event produces.
pub open spec fn spec_event_output(
    ifs: Seq<InterfaceDescriptor>,
    ev: ArpHandlerEvent,
) -> Option<ArpMessage> {
    match ev {
        ArpHandlerEvent::ReceivedPacket(msg) => spec_packet_reply(ifs, msg),
        ArpHandlerEvent::SendArpRequest(request) => Some(spec_request_message(request)),
        ArpHandlerEvent::Shutdown => None,
    }
}

/// The replacement signal one queue event produces.
pub open spec fn spec_event_replaced(m: Map<Ipv4Addr, MacAddr>, ev: ArpHandlerEvent) -> Option<
    MacAddr,
> {
    match ev {
        ArpHandlerEvent::ReceivedPacket(msg) => spec_packet_replaced(m, msg),
        _ => None,
    }
}

/// What handling one inbound message or queue event produced.
#[derive(Clone, Copy, Debug, PartialEq, Eq, Structural)]
pub struct ArpOutcome {
    /// The reply or request to hand to the frame dispatcher, if any.
    pub outbound: Option<ArpMessage>,
    /// The superseded link-layer address, when learning changed a known
    /// binding; to be logged, never a failure.
    pub replaced: Option<MacAddr>,
}

/// The number of events processed before the first shutdown instruction:
/// everything enqueued ahead of it, and nothing behind it.
pub open spec fn spec_drain_count(evs: Seq<ArpHandlerEvent>) -> int
    decreases evs.len(),
{
    if evs.len() == 0 {
        0
    } else if evs[0] is Shutdown {
        0
    } else {
        1 + spec_drain_count(evs.skip(1))
    }
}

/// The table after a sequence of queue events, applied in order.
pub open spec fn spec_table_after(
    m: Map<Ipv4Addr, MacAddr>,
    evs: Seq<ArpHandlerEvent>,
) -> Map<Ipv4Addr, MacAddr>
    decreases evs.len(),
{
    if evs.len() == 0 {
        m
    } else {
        spec_event_table(spec_table_after(m, evs.drop_last()), evs.last())
    }
}

/// The outbound messages a sequence of queue events produces, in order.
pub open spec fn spec_outputs_after(
    ifs: Seq<InterfaceDescriptor>,
    evs: Seq<ArpHandlerEvent>,
) -> Seq<ArpMessage>
    decreases evs.len(),
{
    if evs.len() == 0 {
        Seq::empty()
    } else {
        spec_outputs_after(ifs, evs.drop_last()) + match spec_event_output(ifs, evs.last()) {
            Some(msg) => seq![msg],
            None => Seq::<ArpMessage>::empty(),
        }
    }
}

proof fn lemma_drain_count_at(evs: Seq<ArpHandlerEvent>, i: int)
    requires
        0 <= i <= evs.len(),
        forall|j: int| 0 <= j < i ==> !(evs[j] is Shutdown),
        i < evs.len() ==> evs[i] is Shutdown,
    ensures
        spec_drain_count(evs) == i,
    decreases i,
{
    if i > 0 {
        assert(!(evs[0] is Shutdown));
        assert forall|j: int| 0 <= j < i - 1 implies !(evs.skip(1)[j] is Shutdown) by {
            assert(evs.skip(1)[j] == evs[j + 1]);
        }
        assert(i - 1 < evs.skip(1).len() ==> evs.skip(1)[i - 1] is Shutdown);
        lemma_drain_count_at(evs.skip(1), i - 1);
    }
}

/// The ARP resolver. It owns the set of locally-owned addresses; the
/// Address Table it learns into is handed to each call so that the
/// embedding program can share the table with readers.
pub struct ArpHandler {
    pub interfaces: Vec<InterfaceDescriptor>,
}

impl ArpHandler {
    pub fn new(interfaces: Vec<InterfaceDescriptor>) -> (r: ArpHandler)
        ensures
            r.interfaces@ == interfaces@,
    {
        ArpHandler { interfaces }
    }

    /// Builds the ARP request for a resolution request: hardware type
    /// Ethernet, protocol type IPv4, operation request, the
    /// caller-supplied sender fields, broadcast target hardware address,
    /// and the caller-supplied target protocol address.
    pub fn construct_request(&self, request: &ArpRequest) -> (r: ArpMessage)
        ensures
            r == spec_request_message(*request),
    {
        ArpMessage {
            hardware_type: ARP_HARDWARE_TYPE_ETHERNET,
            protocol_type: ETHERNET_TYPE_IP,
            hw_addr_len: ETHERNET_ADDRESS_LENGTH,
            proto_addr_len: IPV4_ADDRESS_LENGTH,
            operation: ARP_OPERATION_CODE_REQUEST,
            sender_hw_addr: request.sender_mac_address,
            sender_proto_addr: request.sender_ipv4_address,
            target_hw_addr: MacAddr::broadcast(),
            target_proto_addr: request.target_ipv4_address,
        }
    }

    /// Builds an ARP reply with the given sender and target fields.
    pub fn construct_reply(
        &self,
        sender_mac_address: MacAddr,
        sender_ipv4_address: Ipv4Addr,
        target_mac_address: MacAddr,
        target_ipv4_address: Ipv4Addr,
    ) -> (r: ArpMessage)
        ensures
            r == (ArpMessage {
                hardware_type: ARP_HARDWARE_TYPE_ETHERNET,
                protocol_type: ETHERNET_TYPE_IP,
                hw_addr_len: ETHERNET_ADDRESS_LENGTH,
                proto_addr_len: IPV4_ADDRESS_LENGTH,
                operation: ARP_OPERATION_CODE_REPLY,
                sender_hw_addr: sender_mac_address,
                sender_proto_addr: sender_ipv4_address,
                target_hw_addr: target_mac_address,
                target_proto_addr: target_ipv4_address,
            }),
    {
        ArpMessage {
            hardware_type: ARP_HARDWARE_TYPE_ETHERNET,
            protocol_type: ETHERNET_TYPE_IP,
            hw_addr_len: ETHERNET_ADDRESS_LENGTH,
            proto_addr_len: IPV4_ADDRESS_LENGTH,
            operation: ARP_OPERATION_CODE_REPLY,
            sender_hw_addr: sender_mac_address,
            sender_proto_addr: sender_ipv4_address,
            target_hw_addr: target_mac_address,
            target_proto_addr: target_ipv4_address,
        }
    }

    /// Handles an inbound request: unconditionally learns the sender
    /// binding, answers when the target is a locally-owned address, and
    /// reports the superseded link-layer address when learning changed a
    /// known binding.
    pub fn handle_request_packet(&self, table: &mut ArpTable, msg: &ArpMessage) -> (outcome:
        ArpOutcome)
        requires
            old(table).wf(),
            msg.operation == ARP_OPERATION_CODE_REQUEST,
        ensures
            final(table).wf(),
            final(table)@ == old(table)@.insert(msg.sender_proto_addr, msg.sender_hw_addr),
            outcome.outbound == spec_packet_reply(self.interfaces@, *msg),
            outcome.replaced == spec_upsert_signal(
                old(table)@,
                msg.sender_proto_addr,
                msg.sender_hw_addr,
            ),
    {
        let replaced = table.put(msg.sender_proto_addr, msg.sender_hw_addr);
        let outbound = match local_mac(&self.interfaces, msg.target_proto_addr) {
            Some(mac) => Some(
                self.construct_reply(
                    mac,
                    msg.target_proto_addr,
                    msg.sender_hw_addr,
                    msg.sender_proto_addr,
                ),
            ),
            None => None,
        };
        ArpOutcome { outbound, replaced }
    }

    /// Handles any inbound ARP message: requests and replies both teach us
    /// the sender binding; only requests for a locally-owned address are
    /// answered; unsupported operation codes are ignored. A learned
    /// binding that supersedes a different one is reported.
    pub fn handle_packet(&self, table: &mut ArpTable, msg: &ArpMessage) -> (outcome: ArpOutcome)
        requires
            old(table).wf(),
        ensures
            final(table).wf(),
            final(table)@ == spec_packet_table(old(table)@, *msg),
            outcome.outbound == spec_packet_reply(self.interfaces@, *msg),
            outcome.replaced == spec_packet_replaced(old(table)@, *msg),
    {
        if msg.operation == ARP_OPERATION_CODE_REQUEST {
            self.handle_request_packet(table, msg)
        } else if msg.operation == ARP_OPERATION_CODE_REPLY {
            let replaced = table.put(msg.sender_proto_addr, msg.sender_hw_addr);
            ArpOutcome { outbound: None, replaced }
        } else {
            ArpOutcome { outbound: None, replaced: None }
        }
    }

    /// Handles one queue event: what to transmit, and what replacement to
    /// surface, if anything.
    pub fn handle_event(&self, table: &mut ArpTable, event: &ArpHandlerEvent) -> (outcome:
        ArpOutcome)
        requires
            old(table).wf(),
        ensures
            final(table).wf(),
            final(table)@ == spec_event_table(old(table)@, *event),
            outcome.outbound == spec_event_output(self.interfaces@, *event),
            outcome.replaced == spec_event_replaced(old(table)@, *event),
    {
        match event {
            ArpHandlerEvent::ReceivedPacket(msg) => self.handle_packet(table, msg),
            ArpHandlerEvent::SendArpRequest(request) => ArpOutcome {
                outbound: Some(self.construct_request(request)),
                replaced: None,
            },
            ArpHandlerEvent::Shutdown => ArpOutcome { outbound: None, replaced: None },
        }
    }

    /// Law: processing a queue drains it in order up to the first
    /// shutdown instruction. Every event enqueued ahead of the shutdown is
    /// applied to the table and its outbound messages are produced in
    /// order; no event enqueued behind the shutdown has any effect.
    #[verifier::loop_isolation(false)]
    pub fn run(&self, table: &mut ArpTable, events: &Vec<ArpHandlerEvent>) -> (outputs: Vec<
        ArpMessage,
    >)
        requires
            old(table).wf(),
        ensures
            final(table).wf(),
            final(table)@ == spec_table_after(
                old(table)@,
                events@.take(spec_drain_count(events@)),
            ),
            outputs@ == spec_outputs_after(
                self.interfaces@,
                events@.take(spec_drain_count(events@)),
            ),
    {
        let n: usize = events.len();
        let mut outputs: Vec<ArpMessage> = Vec::new();
        let mut i: usize = 0;
        while i < n
            invariant
                i <= n,
                table.wf(),
                forall|j: int| 0 <= j < i ==> !(events@[j] is Shutdown),
                table@ == spec_table_after(old(table)@, events@.take(i as int)),
                outputs@ == spec_outputs_after(self.interfaces@, events@.take(i as int)),
            decreases n - i,
        {
            let event = &events[i];
            match event {
                ArpHandlerEvent::Shutdown => {
                    proof {
                        lemma_drain_count_at(events@, i as int);
                    }
                    return outputs;
                },
                _ => {
                    proof {
                        assert(events@.take(i as int + 1).drop_last() =~= events@.take(i as int));
                        assert(events@.take(i as int + 1).last() == events@[i as int]);
                    }
                    let outcome = self.handle_event(table, event);
                    match outcome.outbound {
                        Some(msg) => {
                            outputs.push(msg);
                        },
                        None => {},
                    }
                    assert(outputs@ =~= spec_outputs_after(
                        self.interfaces@,
                        events@.take(i as int + 1),
                    ));
                    i = i + 1;
                },
            }
        }
        proof {
            lemma_drain_count_at(events@, n as int);
            assert(events@.take(n as int) =~= events@);
        }
        outputs
    }
}

/// Wraps an outbound ARP message in an Ethernet frame from `source` to
/// `destination`.
pub fn build_arp_frame(source: MacAddr, destination: MacAddr, msg: &ArpMessage) -> (r:
    EthernetFrame)
    ensures
        r.destination == destination,
        r.source == source,
        r.ethertype == ETHERNET_TYPE_ARP,
        r.payload@ == spec_arp_bytes(*msg),
{
    EthernetFrame { destination, source, ethertype: ETHERNET_TYPE_ARP, payload: arp_message_to_bytes(msg) }
}

} // verus!
