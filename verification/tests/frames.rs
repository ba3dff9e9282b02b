use crossroads::addr::MacAddr;
use crossroads::ethernet::{
    frame_to_bytes, parse_ethernet_frame, should_handle_packet, EthernetFrame,
};

fn sample_frame() -> EthernetFrame {
    EthernetFrame {
        destination: MacAddr::new(0xaa, 0xbb, 0xcc, 0xdd, 0xee, 0xff),
        source: MacAddr::new(0x11, 0x22, 0x33, 0x44, 0x55, 0x66),
        ethertype: 0x0800,
        payload: vec![0xde, 0xad, 0xbe, 0xef],
    }
}

#[test]
fn frame_serializes_to_exact_wire_bytes() {
    let bytes = frame_to_bytes(&sample_frame());
    assert_eq!(
        bytes,
        vec![
            0xaa, 0xbb, 0xcc, 0xdd, 0xee, 0xff, // destination
            0x11, 0x22, 0x33, 0x44, 0x55, 0x66, // source
            0x08, 0x00, // ethertype
            0xde, 0xad, 0xbe, 0xef, // payload
        ]
    );
}

#[test]
fn frame_parses_from_wire_bytes() {
    let bytes = vec![
        0xaa, 0xbb, 0xcc, 0xdd, 0xee, 0xff, 0x11, 0x22, 0x33, 0x44, 0x55, 0x66, 0x08, 0x06, 0x01,
        0x02,
    ];
    let frame = parse_ethernet_frame(&bytes).expect("long enough for a header");
    assert_eq!(frame.destination, MacAddr::new(0xaa, 0xbb, 0xcc, 0xdd, 0xee, 0xff));
    assert_eq!(frame.source, MacAddr::new(0x11, 0x22, 0x33, 0x44, 0x55, 0x66));
    assert_eq!(frame.ethertype, 0x0806);
    assert_eq!(frame.payload, vec![0x01, 0x02]);
}

#[test]
fn frame_round_trips_through_wire_bytes() {
    let frame = sample_frame();
    let reparsed = parse_ethernet_frame(&frame_to_bytes(&frame)).expect("serialized frame parses");
    assert_eq!(reparsed, frame);
}

#[test]
fn undersized_buffer_does_not_parse() {
    let bytes = vec![0u8; 13];
    assert!(parse_ethernet_frame(&bytes).is_none());
    assert!(parse_ethernet_frame(&Vec::new()).is_none());
}

#[test]
fn empty_payload_frame_parses() {
    let bytes = vec![0u8; 14];
    let frame = parse_ethernet_frame(&bytes).expect("a bare header parses");
    assert!(frame.payload.is_empty());
}

#[test]
fn frame_acceptance_filter() {
    let interface_mac = MacAddr::new(0xaa, 0xbb, 0xcc, 0xdd, 0xee, 0xff);
    let mut frame = sample_frame();

    frame.destination = interface_mac;
    assert!(should_handle_packet(&frame, interface_mac));

    frame.destination = MacAddr::broadcast();
    assert!(should_handle_packet(&frame, interface_mac));

    frame.destination = MacAddr::new(0x11, 0x22, 0x33, 0x44, 0x55, 0x66);
    assert!(!should_handle_packet(&frame, interface_mac));
}
