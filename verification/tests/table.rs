use crossroads::addr::{Ipv4Addr, MacAddr};
use crossroads::table::ArpTable;

#[test]
fn upsert_same_pair_twice_is_idempotent() {
    let mut table = ArpTable::new();
    let ip = Ipv4Addr::new(10, 0, 0, 5);
    let mac = MacAddr::new(0x02, 0x00, 0x00, 0x00, 0x00, 0x05);
    assert_eq!(table.put(ip, mac), None);
    assert_eq!(table.put(ip, mac), None);
    assert_eq!(table.get(ip), Some(mac));
}

#[test]
fn upsert_different_mac_overrides_and_signals() {
    let mut table = ArpTable::new();
    let ip = Ipv4Addr::new(10, 0, 0, 5);
    let mac1 = MacAddr::new(0x02, 0x00, 0x00, 0x00, 0x00, 0x05);
    let mac2 = MacAddr::new(0x02, 0x00, 0x00, 0x00, 0x00, 0x06);
    assert_eq!(table.put(ip, mac1), None);
    assert_eq!(table.put(ip, mac2), Some(mac1));
    assert_eq!(table.get(ip), Some(mac2));
}

#[test]
fn lookup_of_absent_address_is_none() {
    let table = ArpTable::new();
    assert_eq!(table.get(Ipv4Addr::new(192, 168, 1, 1)), None);
}

#[test]
fn distinct_addresses_keep_distinct_bindings() {
    let mut table = ArpTable::new();
    let ip1 = Ipv4Addr::new(10, 0, 0, 1);
    let ip2 = Ipv4Addr::new(10, 0, 0, 2);
    let mac1 = MacAddr::new(0x02, 0, 0, 0, 0, 1);
    let mac2 = MacAddr::new(0x02, 0, 0, 0, 0, 2);
    assert_eq!(table.put(ip1, mac1), None);
    assert_eq!(table.put(ip2, mac2), None);
    assert_eq!(table.get(ip1), Some(mac1));
    assert_eq!(table.get(ip2), Some(mac2));
}
