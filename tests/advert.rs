use cattysend::advert::build_legacy_payload;
use cattysend::advert::build_name_service_data;
use cattysend::advert::sender_id_from_random_data;
use cattysend::advert::LegacyAdvConfig;

#[test]
fn test_catshare_config() {
    let config = LegacyAdvConfig::catshare_compatible(0x3331, 0x011e, &[0x12, 0x75], "thinkpad-z13", [0x12, 0x75]);
    assert!(config.adv_data.len() <= 31, "adv_data too long: {}", config.adv_data.len());
    assert!(config.scan_rsp_data.len() <= 31, "scan_rsp too long: {}", config.scan_rsp_data.len());
    assert_eq!(config.adv_data[0], 2);
    assert_eq!(config.adv_data[1], 0x01);
    assert_eq!(config.adv_data[2], 0x06);
}

#[test]
fn advertisement_layout_thinkpad() {
    let (adv, scan) = build_legacy_payload(0x1E, true, [0x12, 0x75], "thinkpad-z13");
    assert_eq!(&adv[0..3], &[0x02, 0x01, 0x06]);
    assert_eq!(&adv[3..7], &[0x03, 0x03, 0x31, 0x33]);
    assert!(adv.len() <= 31);
    assert_eq!(&adv[7..], &[0x09, 0x16, 0x1E, 0x01, 0x12, 0x75, 0, 0, 0, 0]);
    let name = "thinkpad-z13".as_bytes();
    assert_eq!(scan[0] as usize, name.len() + 1);
    assert_eq!(scan[1], 0x09);
    assert_eq!(&scan[2..], name);
}

#[test]
fn short_names_fit_both_payloads() {
    for name in ["", "a", "fifteen-bytes-x", "设备名"] {
        let (adv, scan) = build_legacy_payload(0xFF, false, [0xAB, 0xCD], name);
        assert!(adv.len() <= 31);
        assert!(scan.len() <= 31);
    }
}

#[test]
fn empty_name_gives_empty_scan_response() {
    let config = LegacyAdvConfig::catshare_compatible(0x3331, 0x011e, &[], "", [0, 0]);
    assert!(config.scan_rsp_data.is_empty());
    assert_eq!(config.adv_data, vec![2, 1, 6, 3, 3, 0x31, 0x33, 3, 0x16, 0x1e, 0x01]);
}

#[test]
fn ident_data_is_cut_to_six_bytes() {
    let config = LegacyAdvConfig::catshare_compatible(0x3331, 0x0102, &[1, 2, 3, 4, 5, 6, 7, 8], "x", [1, 2]);
    assert_eq!(config.adv_data.len(), 17);
    assert_eq!(config.adv_data[7], 9);
    assert_eq!(&config.adv_data[11..], &[1, 2, 3, 4, 5, 6]);
}

#[test]
fn long_name_is_cut_on_a_boundary_and_marked() {
    // 10 three-byte characters: 30 bytes, over the 29-byte limit
    let name = "设备名称设备名称设备";
    let (_, scan) = build_legacy_payload(0x1E, true, [0, 0], name);
    assert!(scan.len() <= 31);
    assert_eq!(scan[1], 0x09);
    let body = &scan[2..];
    assert_eq!(*body.last().unwrap(), b'\t');
    let text = std::str::from_utf8(&body[..body.len() - 1]).unwrap();
    assert_eq!(text, "设备名称设备名称设");
    assert_eq!(scan[0] as usize, body.len() + 1);
}

#[test]
fn ascii_name_of_thirty_bytes_keeps_twenty_eight() {
    let name = "abcdefghijklmnopqrstuvwxyz0123";
    let (_, scan) = build_legacy_payload(0x1E, true, [0, 0], name);
    assert_eq!(scan.len(), 31);
    assert_eq!(&scan[2..30], &name.as_bytes()[..28]);
    assert_eq!(scan[30], b'\t');
}

#[test]
fn legacy_config_default() {
    let c = LegacyAdvConfig::default();
    assert_eq!(c.controller_index, 0);
    assert_eq!(c.instance, 1);
    assert!(c.connectable && c.discoverable);
    assert!(c.adv_data.is_empty() && c.scan_rsp_data.is_empty());
}

#[test]
fn name_service_data_layout() {
    let d = build_name_service_data(&[0x12, 0x75], "thinkpad-z13");
    assert_eq!(d.len(), 27);
    assert_eq!(&d[..8], &[0u8; 8]);
    assert_eq!(&d[8..10], &[0x12, 0x75]);
    assert_eq!(&d[10..22], "thinkpad-z13".as_bytes());
    assert_eq!(&d[22..26], &[0, 0, 0, 0]);
    assert_eq!(d[26], 1);
}

#[test]
fn name_service_data_cuts_long_names() {
    let d = build_name_service_data(&[1, 2], "a-very-long-device-name");
    assert_eq!(d.len(), 27);
    assert_eq!(&d[10..25], "a-very-long-dev".as_bytes());
    assert_eq!(d[25], b'\t');
    assert_eq!(d[26], 1);
}

#[test]
fn sender_id_is_four_hex_digits() {
    assert_eq!(sender_id_from_random_data(&[0x12, 0x75]), "1275");
    assert_eq!(sender_id_from_random_data(&[0x0a, 0xff]), "0aff");
}

use cattysend::advert::legacy_adv_flags;
use cattysend::advert::MgmtLegacyAdvertiser;

#[test]
fn legacy_flags_never_secondary() {
    let mut c = LegacyAdvConfig::default();
    c.discoverable = false;
    let f = legacy_adv_flags(&c);
    assert!(f.connectable && !f.discoverable && f.add_flags_field);
    assert!(!f.secondary_le_1m && !f.secondary_le_2m && !f.secondary_le_coded);
}

#[test]
fn advertiser_stops_before_restart() {
    let mut a = MgmtLegacyAdvertiser::new(LegacyAdvConfig::default());
    assert!(!a.start().stop_first);
    assert!(a.is_active());
    assert!(a.start().stop_first);
    assert!(a.stop());
    assert!(!a.stop());
}
