use cattysend::scanner::clean_name;
use cattysend::scanner::is_mta_device;
use cattysend::scanner::is_mta_uuid;
use cattysend::scanner::is_name_suspicious;
use cattysend::scanner::parse_service_metadata;
use cattysend::scanner::DiscoveredDevice;
use cattysend::scanner::SCAN_RESP_UUID;

#[test]
fn capability_uuid_decodes_5ghz_and_unknown_brand() {
    let uuid: u128 = 0x000001FF_0000_1000_8000_00805f9b34fb;
    let sd = vec![(uuid, vec![0u8; 6])];
    let (_, brand_id, five) = parse_service_metadata(&sd, &vec![]);
    assert!(five);
    assert_eq!(brand_id, Some(0xFF));
    let dev = DiscoveredDevice::from_advertisement("n".to_string(), "AA".to_string(), None, &sd, &vec![]);
    assert!(dev.supports_5ghz);
    assert_eq!(dev.brand_id, Some(255));
    assert_eq!(dev.brand, "Unknown (255)");
}

#[test]
fn sender_id_from_name_record() {
    let mut data = vec![0u8; 27];
    data[8] = 0x12;
    data[9] = 0x75;
    let sd = vec![(SCAN_RESP_UUID, data), (0x0000011E_0000_1000_8000_00805f9b34fb, vec![1, 2, 0, 0, 0, 0])];
    let (sender, brand, five) = parse_service_metadata(&sd, &vec![0x038F]);
    assert_eq!(sender, "1275");
    assert_eq!(brand, Some(30));
    assert!(five);
}

#[test]
fn brand_from_manufacturer_key_when_no_capability() {
    let (sender, brand, five) = parse_service_metadata(&vec![], &vec![0xFFAA]);
    assert_eq!(sender, "0000");
    assert_eq!(brand, Some(-86));
    assert!(!five);
    let dev = DiscoveredDevice::from_advertisement("x".to_string(), "a".to_string(), Some(-40), &vec![], &vec![0xFFAA]);
    assert_eq!(dev.brand, "Hisense");
    let dev = DiscoveredDevice::from_advertisement("x".to_string(), "a".to_string(), None, &vec![], &vec![]);
    assert_eq!(dev.brand, "Unknown");
    assert_eq!(dev.brand_id, None);
}

#[test]
fn protocol_uuid_range() {
    assert!(is_mta_uuid(0x00003331_0000_1000_8000_00805f9b34fb));
    assert!(is_mta_uuid(0x00003334_0000_1000_8000_00805f9b34fb));
    assert!(!is_mta_uuid(0x00003335_0000_1000_8000_00805f9b34fb));
    assert!(is_mta_uuid(0x00003331_0000_1000_8000_008123456789));
    assert!(!is_mta_uuid(0x00003332_0000_1000_8000_008123456789));
    assert!(!is_mta_device(&vec![0x00003332_0000_1000_8000_008123456789], &vec![], &vec![], None));
    assert!(!is_mta_uuid(0x00003331_0000_1000_8000_000000000000));
}

#[test]
fn protocol_device_detection() {
    assert!(is_mta_device(&vec![0x00003332_0000_1000_8000_00805f9b34fb], &vec![], &vec![], None));
    assert!(is_mta_device(&vec![], &vec![0x00003333_0000_1000_8000_00805f9b34fb], &vec![], None));
    assert!(is_mta_device(&vec![], &vec![SCAN_RESP_UUID], &vec![], None));
    assert!(is_mta_device(&vec![], &vec![], &vec![0x038F], None));
    assert!(!is_mta_device(&vec![0x0000180F_0000_1000_8000_00805f9b34fb], &vec![], &vec![0x004C], None));
    assert!(is_mta_device(&vec![], &vec![], &vec![], Some("Redmi Note 12")));
    assert!(!is_mta_device(&vec![], &vec![], &vec![], Some("Pixel 8")));
    assert!(is_mta_device(&vec![0x00003331_0000_1000_8000_008123456789], &vec![], &vec![], None));
}

#[test]
fn gap_name_cleanup() {
    assert!(is_name_suspicious("<unknown>"));
    assert!(is_name_suspicious("(abc"));
    assert!(is_name_suspicious("abc$"));
    assert!(is_name_suspicious("abc\t"));
    assert!(!is_name_suspicious("Redmi K60"));
    assert_eq!(clean_name("(($Redmi\t$"), "Redmi");
    assert_eq!(clean_name("(((("), "");
    assert_eq!(clean_name("a(b"), "a(b");
}

use cattysend::scanner::extract_ascii_name;
use cattysend::scanner::resolve_device_name;
use cattysend::scanner::DiscoveryTable;

#[test]
fn ascii_name_prefers_brand_words() {
    let mut data = vec![0x01, 0x02];
    data.extend_from_slice(b"abcdefghijk");
    data.push(0x00);
    data.extend_from_slice(b"Redmi K60");
    data.push(0xff);
    assert_eq!(extract_ascii_name(&data), Some("Redmi K60".to_string()));
}

#[test]
fn ascii_name_longest_and_trimmed() {
    let mut data = b"  abcd  ".to_vec();
    data.push(0x00);
    data.extend_from_slice(b"xyz");
    assert_eq!(extract_ascii_name(&data), Some("abcd".to_string()));
    assert_eq!(extract_ascii_name(b"abc\x00de"), None);
    assert_eq!(extract_ascii_name(b""), None);
}

#[test]
fn ascii_name_ties_go_to_the_later() {
    let mut data = b"aaaa".to_vec();
    data.push(0x10);
    data.extend_from_slice(b"bbbb");
    assert_eq!(extract_ascii_name(&data), Some("bbbb".to_string()));
}

#[test]
fn name_resolution_order() {
    let xiaomi = vec![(0x038Fu16, b"\x01Xiaomi 14\x02".to_vec())];
    assert_eq!(resolve_device_name(Some("Phone".to_string()), &xiaomi), "Phone");
    assert_eq!(resolve_device_name(Some("<unknown>".to_string()), &xiaomi), "Xiaomi 14");
    let both = vec![(0x038Fu16, b"\x01abcdefghij\x02".to_vec()), (0x0001u16, b"\x01OnePlus 12\x02".to_vec())];
    assert_eq!(resolve_device_name(None, &both), "OnePlus 12");
    let other = vec![(0x0001u16, b"\x01OnePlus 12\x02".to_vec())];
    assert_eq!(resolve_device_name(None, &other), "OnePlus 12");
    assert_eq!(resolve_device_name(Some("(Phone$".to_string()), &other), "OnePlus 12");
    assert_eq!(resolve_device_name(Some("Phone$".to_string()), &vec![]), "Phone");
    assert_eq!(resolve_device_name(Some("Pixel".to_string()), &other), "Pixel");
    assert_eq!(resolve_device_name(None, &vec![]), "<unknown>");
}

fn device(addr: &str) -> DiscoveredDevice {
    DiscoveredDevice::from_advertisement("n".to_string(), addr.to_string(), None, &vec![], &vec![])
}

#[test]
fn discovery_dedups_by_address() {
    let mut t = DiscoveryTable::new();
    assert!(t.insert_if_new(device("AA")));
    assert!(t.insert_if_new(device("BB")));
    assert!(!t.insert_if_new(device("AA")));
    assert_eq!(t.devices.len(), 2);
    assert!(t.contains("BB"));
    assert!(!t.contains("CC"));
}
