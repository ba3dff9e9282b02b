use crossroads::addr::{Ipv4Addr, MacAddr};
use crossroads::iface::InterfaceDescriptor;
use crossroads::ipv4::{Ipv4Action, Ipv4Handler, Ipv4HandlerEvent, Ipv4Packet};
use crossroads::table::ArpTable;

fn header_bytes(source: [u8; 4], destination: [u8; 4]) -> Vec<u8> {
    let mut bytes = vec![
        0x45, 0x00, 0x00, 0x14, // version/IHL, DSCP, total length 20
        0x00, 0x00, 0x00, 0x00, // identification, flags/fragment offset
        0x40, 0x00, 0x00, 0x00, // TTL 64, protocol, checksum
    ];
    bytes.extend_from_slice(&source);
    bytes.extend_from_slice(&destination);
    bytes
}

fn packet_to(destination: [u8; 4]) -> Ipv4Packet {
    Ipv4Packet::parse(header_bytes([10, 0, 0, 2], destination)).expect("20-byte header parses")
}

fn handler() -> Ipv4Handler {
    Ipv4Handler::new(vec![
        InterfaceDescriptor {
            index: 1,
            mac: MacAddr::new(0x00, 0x11, 0x22, 0x33, 0x44, 0x55),
            ipv4_addresses: vec![Ipv4Addr::new(10, 0, 0, 1)],
        },
        InterfaceDescriptor {
            index: 2,
            mac: MacAddr::new(0x00, 0x11, 0x22, 0x33, 0x44, 0x66),
            ipv4_addresses: vec![Ipv4Addr::new(192, 168, 7, 1)],
        },
    ])
}

#[test]
fn undersized_packet_does_not_parse() {
    assert!(Ipv4Packet::parse(vec![0u8; 19]).is_none());
}

#[test]
fn parsed_packet_exposes_its_addresses() {
    let packet = packet_to([172, 16, 3, 4]);
    assert_eq!(packet.get_source(), Ipv4Addr::new(10, 0, 0, 2));
    assert_eq!(packet.get_destination(), Ipv4Addr::new(172, 16, 3, 4));
}

#[test]
fn locality_classification() {
    let handler = handler();
    // A locally-owned address, on either interface, is ours.
    assert!(handler.determine_if_ours(&packet_to([10, 0, 0, 1])));
    assert!(handler.determine_if_ours(&packet_to([192, 168, 7, 1])));
    // The broadcast address is ours.
    assert!(handler.determine_if_ours(&packet_to([255, 255, 255, 255])));
    // Anything else is not.
    assert!(!handler.determine_if_ours(&packet_to([10, 0, 0, 99])));
}

#[test]
fn local_packet_is_delivered_locally() {
    let handler = handler();
    let table = ArpTable::new();
    let action = handler.handle_received_packet(&table, &packet_to([10, 0, 0, 1]));
    assert_eq!(action, Ipv4Action::DeliverLocally);
}

#[test]
fn resolved_destination_is_forwarded() {
    let handler = handler();
    let mut table = ArpTable::new();
    let next_hop = MacAddr::new(0x02, 0, 0, 0, 0, 0x42);
    table.put(Ipv4Addr::new(172, 16, 3, 4), next_hop);
    let action = handler.handle_received_packet(&table, &packet_to([172, 16, 3, 4]));
    assert_eq!(action, Ipv4Action::Forward(next_hop));
}

#[test]
fn resolution_miss_triggers_one_request_naming_the_destination() {
    let handler = handler();
    let table = ArpTable::new();
    let action = handler.handle_received_packet(&table, &packet_to([172, 16, 3, 4]));
    match action {
        Ipv4Action::Resolve(request) => {
            assert_eq!(request.target_ipv4_address, Ipv4Addr::new(172, 16, 3, 4));
            // The sender fields come from the first interface that has an
            // address assigned.
            assert_eq!(request.sender_mac_address, MacAddr::new(0x00, 0x11, 0x22, 0x33, 0x44, 0x55));
            assert_eq!(request.sender_ipv4_address, Ipv4Addr::new(10, 0, 0, 1));
        }
        other => panic!("expected a resolution request, got {:?}", other),
    }
}

#[test]
fn sender_placeholders_without_any_assigned_address() {
    let handler = Ipv4Handler::new(vec![InterfaceDescriptor {
        index: 1,
        mac: MacAddr::new(0x00, 0x11, 0x22, 0x33, 0x44, 0x55),
        ipv4_addresses: Vec::new(),
    }]);
    let table = ArpTable::new();
    let action = handler.handle_received_packet(&table, &packet_to([172, 16, 3, 4]));
    match action {
        Ipv4Action::Resolve(request) => {
            assert_eq!(request.sender_mac_address, MacAddr::zero());
            assert_eq!(request.sender_ipv4_address, Ipv4Addr::broadcast());
        }
        other => panic!("expected a resolution request, got {:?}", other),
    }
}

#[test]
fn ipv4_queue_drains_in_order_until_shutdown() {
    let handler = handler();
    let table = ArpTable::new();
    let events = vec![
        Ipv4HandlerEvent::ReceivedPacket(packet_to([10, 0, 0, 1])),
        Ipv4HandlerEvent::ReceivedPacket(packet_to([172, 16, 3, 4])),
        Ipv4HandlerEvent::Shutdown,
        Ipv4HandlerEvent::ReceivedPacket(packet_to([192, 168, 7, 1])),
    ];
    let outputs = handler.run(&table, &events);
    assert_eq!(outputs.len(), 2);
    assert_eq!(outputs[0], Ipv4Action::DeliverLocally);
    assert!(matches!(outputs[1], Ipv4Action::Resolve(_)));
}
