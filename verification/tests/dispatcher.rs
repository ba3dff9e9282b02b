use crossroads::addr::{Ipv4Addr, MacAddr};
use crossroads::dispatch::{EthernetHandler, EthernetHandlerEvent, FrameDisposition};
use crossroads::ethernet::{frame_to_bytes, EthernetFrame};
use crossroads::iface::InterfaceDescriptor;

const INTERFACE_MAC: [u8; 6] = [0xaa, 0xbb, 0xcc, 0xdd, 0xee, 0xff];

fn dispatcher() -> EthernetHandler {
    EthernetHandler::new(vec![InterfaceDescriptor {
        index: 3,
        mac: MacAddr::new(
            INTERFACE_MAC[0],
            INTERFACE_MAC[1],
            INTERFACE_MAC[2],
            INTERFACE_MAC[3],
            INTERFACE_MAC[4],
            INTERFACE_MAC[5],
        ),
        ipv4_addresses: vec![Ipv4Addr::new(10, 0, 0, 1)],
    }])
}

fn captured(destination: [u8; 6], ethertype: u16, payload: &[u8]) -> Vec<u8> {
    let mut bytes = Vec::new();
    bytes.extend_from_slice(&destination);
    bytes.extend_from_slice(&[0x11, 0x22, 0x33, 0x44, 0x55, 0x66]);
    bytes.extend_from_slice(&ethertype.to_be_bytes());
    bytes.extend_from_slice(payload);
    bytes
}

fn ipv4_payload(destination: [u8; 4]) -> Vec<u8> {
    let mut payload = vec![
        0x45, 0x00, 0x00, 0x14, 0x00, 0x00, 0x00, 0x00, 0x40, 0x00, 0x00, 0x00, 10, 0, 0, 2,
    ];
    payload.extend_from_slice(&destination);
    payload
}

#[test]
fn undersized_capture_is_malformed() {
    let d = dispatcher();
    let disposition = d.handle_captured_frame(3, &vec![0u8; 13]);
    assert!(matches!(disposition, FrameDisposition::Malformed));
}

#[test]
fn frame_for_another_station_is_not_ours() {
    let d = dispatcher();
    let buffer = captured([0x11, 0x22, 0x33, 0x44, 0x55, 0x66], 0x0800, &ipv4_payload([10, 0, 0, 9]));
    let disposition = d.handle_captured_frame(3, &buffer);
    assert!(matches!(disposition, FrameDisposition::NotForUs));
}

#[test]
fn ipv4_frame_is_routed_to_the_ipv4_handler() {
    let d = dispatcher();
    let buffer = captured(INTERFACE_MAC, 0x0800, &ipv4_payload([172, 16, 3, 4]));
    match d.handle_captured_frame(3, &buffer) {
        FrameDisposition::DeliverIpv4(packet) => {
            assert_eq!(packet.get_destination(), Ipv4Addr::new(172, 16, 3, 4));
        }
        other => panic!("expected an IPv4 delivery, got {:?}", other),
    }
}

#[test]
fn broadcast_arp_frame_is_routed_to_the_resolver() {
    let d = dispatcher();
    let arp_payload: Vec<u8> = vec![
        0x00, 0x01, 0x08, 0x00, 0x06, 0x04, 0x00, 0x01, // request header
        0x66, 0x77, 0x88, 0x99, 0xaa, 0xbb, 10, 0, 0, 2, // sender
        0x00, 0x00, 0x00, 0x00, 0x00, 0x00, 10, 0, 0, 1, // target
    ];
    let buffer = captured([0xff; 6], 0x0806, &arp_payload);
    match d.handle_captured_frame(3, &buffer) {
        FrameDisposition::DeliverArp(msg) => {
            assert_eq!(msg.operation, 1);
            assert_eq!(msg.sender_proto_addr, Ipv4Addr::new(10, 0, 0, 2));
            assert_eq!(msg.target_proto_addr, Ipv4Addr::new(10, 0, 0, 1));
        }
        other => panic!("expected an ARP delivery, got {:?}", other),
    }
}

#[test]
fn matching_ethertype_with_short_payload_is_unparsable() {
    let d = dispatcher();
    let ip = d.handle_captured_frame(3, &captured(INTERFACE_MAC, 0x0800, &[0u8; 19]));
    assert!(matches!(ip, FrameDisposition::UnparsablePayload));
    let arp = d.handle_captured_frame(3, &captured([0xff; 6], 0x0806, &[0u8; 27]));
    assert!(matches!(arp, FrameDisposition::UnparsablePayload));
}

#[test]
fn unknown_ethertype_is_ignored() {
    let d = dispatcher();
    let disposition = d.handle_captured_frame(3, &captured(INTERFACE_MAC, 0x86dd, &[0u8; 40]));
    assert!(matches!(disposition, FrameDisposition::Ignored));
}

#[test]
fn transmission_instruction_serializes_the_frame() {
    let d = dispatcher();
    let frame = EthernetFrame {
        destination: MacAddr::broadcast(),
        source: MacAddr::new(0x00, 0x11, 0x22, 0x33, 0x44, 0x55),
        ethertype: 0x0806,
        payload: vec![1, 2, 3],
    };
    let expected = frame_to_bytes(&frame);
    let order = d
        .handle_event(&EthernetHandlerEvent::SendPacket(3, frame))
        .expect("a transmission produces an order");
    assert_eq!(order.interface_index, 3);
    assert_eq!(order.bytes, expected);
}

#[test]
fn dispatcher_queue_drains_in_order_until_shutdown() {
    let d = dispatcher();
    let frame = |last: u8| EthernetFrame {
        destination: MacAddr::broadcast(),
        source: MacAddr::new(0x00, 0x11, 0x22, 0x33, 0x44, last),
        ethertype: 0x0806,
        payload: Vec::new(),
    };
    let events = vec![
        EthernetHandlerEvent::SendPacket(3, frame(0x01)),
        EthernetHandlerEvent::SendPacket(3, frame(0x02)),
        EthernetHandlerEvent::Shutdown,
        EthernetHandlerEvent::SendPacket(3, frame(0x03)),
    ];
    let outputs = d.run(&events);
    assert_eq!(outputs.len(), 2);
    assert_eq!(outputs[0].bytes, frame_to_bytes(&frame(0x01)));
    assert_eq!(outputs[1].bytes, frame_to_bytes(&frame(0x02)));
}
