//! The frame dispatcher: classifies captured frames for the ARP and IPv4
//! handlers and serializes outbound frames for transmission.
//!
//! Capture and transmission themselves are the embedding program's
//! concern; the dispatcher decides, for every buffer and every queue
//! instruction, exactly what is to be done with it.

use vstd::prelude::*;

use crate::addr::{spec_be16_at, spec_mac_at, MacAddr};
use crate::arp::{parse_arp_message, spec_arp_message_at, ArpMessage};
use crate::ethernet::{
    frame_to_bytes, parse_ethernet_frame, should_handle_packet, spec_frame_bytes, EthernetFrame,
    ETHERNET_TYPE_ARP, ETHERNET_TYPE_IP,
};
use crate::iface::{mac_for_index, spec_mac_for_index, InterfaceDescriptor};
use crate::ipv4::Ipv4Packet;

verus! {

/// One instruction on the dispatcher's queue.
#[derive(Debug)]
pub enum EthernetHandlerEvent {
    /// Serialize this frame and transmit it on the interface with the
    /// given platform index.
    SendPacket(u32, EthernetFrame),
    /// Drain the queue and stop.
    Shutdown,
}

/// What becomes of one captured buffer.
#[derive(Debug)]
pub enum FrameDisposition {
    /// The buffer is too short to hold an Ethernet header; dropped
    /// silently.
    Malformed,
    /// The frame is destined to neither the receiving interface nor the
    /// broadcast address; dropped before classification.
    NotForUs,
    /// An accepted frame with the IPv4 ethertype; route the payload to
    /// the IPv4 handler.
    DeliverIpv4(Ipv4Packet),
    /// An accepted frame with the ARP ethertype; route the payload to the
    /// ARP resolver.
    DeliverArp(ArpMessage),
    /// The ethertype promised a known protocol but the payload does not
    /// parse as it; logged and dropped.
    UnparsablePayload,
    /// Any other ethertype; ignored.
    Ignored,
}

/// A serialized frame awaiting transmission on the interface with the
/// given platform index.
#[derive(Debug)]
pub struct TransmitOrder {
    pub interface_index: u32,
    pub bytes: Vec<u8>,
}

impl View for TransmitOrder {
    type V = (u32, Seq<u8>);

    open spec fn view(&self) -> (u32, Seq<u8>) {
        (self.interface_index, self.bytes@)
    }
}

/// A buffer is accepted when it holds an Ethernet header whose
/// destination is the receiving interface's address or broadcast.
pub open spec fn spec_accepts(b: Seq<u8>, mac: MacAddr) -> bool {
    b.len() >= 14 && (spec_mac_at(b, 0) == mac || spec_mac_at(b, 0) == MacAddr::spec_broadcast())
}

/// The serialized frame one queue event orders transmitted, if any.
pub open spec fn spec_event_order(ev: EthernetHandlerEvent) -> Option<(u32, Seq<u8>)> {
    match ev {
        EthernetHandlerEvent::SendPacket(interface_index, frame) => Some(
            (interface_index, spec_frame_bytes(frame)),
        ),
        EthernetHandlerEvent::Shutdown => None,
    }
}

/// The number of events processed before the first shutdown instruction.
pub open spec fn spec_drain_count(evs: Seq<EthernetHandlerEvent>) -> int
    decreases evs.len(),
{
    if evs.len() == 0 {
        0
    } else if evs[0] is Shutdown {
        0
    } else {
        1 + spec_drain_count(evs.skip(1))
    }
}

/// The transmissions a sequence of queue events orders, in order.
pub open spec fn spec_orders_after(evs: Seq<EthernetHandlerEvent>) -> Seq<(u32, Seq<u8>)>
    decreases evs.len(),
{
    if evs.len() == 0 {
        Seq::empty()
    } else {
        spec_orders_after(evs.drop_last()) + match spec_event_order(evs.last()) {
            Some(o) => seq![o],
            None => Seq::<(u32, Seq<u8>)>::empty(),
        }
    }
}

proof fn lemma_drain_count_at(evs: Seq<EthernetHandlerEvent>, i: int)
    requires
        0 <= i <= evs.len(),
        forall|j: int| 0 <= j < i ==> !(evs[j] is Shutdown),
        i < evs.len() ==> evs[i] is Shutdown,
    ensures
        spec_drain_count(evs) == i,
    decreases i,
{
    if i > 0 {
        assert(!(evs[0] is Shutdown));
        assert forall|j: int| 0 <= j < i - 1 implies !(evs.skip(1)[j] is Shutdown) by {
            assert(evs.skip(1)[j] == evs[j + 1]);
        }
        assert(i - 1 < evs.skip(1).len() ==> evs.skip(1)[i - 1] is Shutdown);
        lemma_drain_count_at(evs.skip(1), i - 1);
    }
}

/// The frame dispatcher: the interfaces whose capture handles it serves.
pub struct EthernetHandler {
    pub interfaces: Vec<InterfaceDescriptor>,
}

impl EthernetHandler {
    pub fn new(interfaces: Vec<InterfaceDescriptor>) -> (r: EthernetHandler)
        ensures
            r.interfaces@ == interfaces@,
    {
        EthernetHandler { interfaces }
    }

    /// Decides what becomes of a buffer captured on the interface with
    /// the given platform index: undersized buffers are dropped, frames
    /// for other stations are not ours, accepted frames are routed by
    /// ethertype to the ARP or IPv4 handler when their payload parses,
    /// and unknown ethertypes are ignored.
    pub fn handle_captured_frame(&self, interface_index: u32, buffer: &Vec<u8>) -> (r:
        FrameDisposition)
        requires
            spec_mac_for_index(self.interfaces@, interface_index) is Some,
        ensures
            spec_mac_for_index(self.interfaces@, interface_index) matches Some(mac) ==> {
                let b = buffer@;
                let ethertype = spec_be16_at(b, 12);
                &&& b.len() < 14 ==> r is Malformed
                &&& b.len() >= 14 && !spec_accepts(b, mac) ==> r is NotForUs
                &&& spec_accepts(b, mac) && ethertype == ETHERNET_TYPE_IP && b.len() >= 34 ==> {
                    &&& r matches FrameDisposition::DeliverIpv4(p)
                    &&& p@ == b.skip(14)
                }
                &&& spec_accepts(b, mac) && ethertype == ETHERNET_TYPE_IP && b.len() < 34
                    ==> r is UnparsablePayload
                &&& spec_accepts(b, mac) && ethertype == ETHERNET_TYPE_ARP && b.len() >= 42 ==> {
                    &&& r matches FrameDisposition::DeliverArp(m)
                    &&& m == spec_arp_message_at(b.skip(14))
                }
                &&& spec_accepts(b, mac) && ethertype == ETHERNET_TYPE_ARP && b.len() < 42
                    ==> r is UnparsablePayload
                &&& spec_accepts(b, mac) && ethertype != ETHERNET_TYPE_IP && ethertype
                    != ETHERNET_TYPE_ARP ==> r is Ignored
            },
    {
        let mac = match mac_for_index(&self.interfaces, interface_index) {
            Some(mac) => mac,
            None => vstd::pervasive::unreached(),
        };
        let frame = match parse_ethernet_frame(buffer) {
            Some(frame) => frame,
            None => {
                return FrameDisposition::Malformed;
            },
        };
        if !should_handle_packet(&frame, mac) {
            return FrameDisposition::NotForUs;
        }
        if frame.ethertype == ETHERNET_TYPE_IP {
            match Ipv4Packet::parse(frame.payload) {
                Some(packet) => FrameDisposition::DeliverIpv4(packet),
                None => FrameDisposition::UnparsablePayload,
            }
        } else if frame.ethertype == ETHERNET_TYPE_ARP {
            match parse_arp_message(&frame.payload) {
                Some(msg) => FrameDisposition::DeliverArp(msg),
                None => FrameDisposition::UnparsablePayload,
            }
        } else {
            FrameDisposition::Ignored
        }
    }

    /// Handles one queue event: a transmission instruction becomes a
    /// serialized frame bound for its interface; shutdown produces
    /// nothing.
    pub fn handle_event(&self, event: &EthernetHandlerEvent) -> (r: Option<TransmitOrder>)
        ensures
            r is Some <==> !(*event is Shutdown),
            r matches Some(order) ==> spec_event_order(*event) == Some(order@),
    {
        match event {
            EthernetHandlerEvent::SendPacket(interface_index, frame) => Some(
                TransmitOrder { interface_index: *interface_index, bytes: frame_to_bytes(frame) },
            ),
            EthernetHandlerEvent::Shutdown => None,
        }
    }

    /// Law: processing a queue drains it in order up to the first
    /// shutdown instruction. Every transmission enqueued ahead of the
    /// shutdown is serialized in order; no event enqueued behind the
    /// shutdown has any effect.
    #[verifier::loop_isolation(false)]
    pub fn run(&self, events: &Vec<EthernetHandlerEvent>) -> (outputs: Vec<TransmitOrder>)
        ensures
            outputs@.map_values(|o: TransmitOrder| o@) == spec_orders_after(
                events@.take(spec_drain_count(events@)),
            ),
    {
        let n: usize = events.len();
        let mut outputs: Vec<TransmitOrder> = Vec::new();
        let mut i: usize = 0;
        assert(outputs@.map_values(|o: TransmitOrder| o@) =~= spec_orders_after(
            events@.take(0),
        ));
        while i < n
            invariant
                i <= n,
                forall|j: int| 0 <= j < i ==> !(events@[j] is Shutdown),
                outputs@.map_values(|o: TransmitOrder| o@) == spec_orders_after(
                    events@.take(i as int),
                ),
            decreases n - i,
        {
            let event = &events[i];
            match event {
                EthernetHandlerEvent::Shutdown => {
                    proof {
                        lemma_drain_count_at(events@, i as int);
                    }
                    return outputs;
                },
                _ => {
                    proof {
                        assert(events@.take(i as int + 1).drop_last() =~= events@.take(i as int));
                        assert(events@.take(i as int + 1).last() == events@[i as int]);
                    }
                    let out = self.handle_event(event);
                    match out {
                        Some(order) => {
                            outputs.push(order);
                        },
                        None => {},
                    }
                    assert(outputs@.map_values(|o: TransmitOrder| o@) =~= spec_orders_after(
                        events@.take(i as int + 1),
                    ));
                    i = i + 1;
                },
            }
        }
        proof {
            lemma_drain_count_at(events@, n as int);
            assert(events@.take(n as int) =~= events@);
        }
        outputs
    }
}

} // verus!
