use cattysend::netinfo::ipv4_from_ip_output;
use cattysend::netinfo::normalize_mac;

const OUTPUT: &str = "1: lo    inet 127.0.0.1/8 scope host lo\\       valid_lft forever preferred_lft forever\n\
2: wlan0    inet6 fe80::1/64 scope link \\       valid_lft forever preferred_lft forever\n\
3: p2p-wlan0-0    inet 10.42.0.57/24 brd 10.42.0.255 scope global dynamic p2p-wlan0-0\\       valid_lft 3599sec preferred_lft 3599sec\n";

#[test]
fn address_of_named_interface() {
    assert_eq!(ipv4_from_ip_output(OUTPUT, Some("p2p-wlan0-0")), Some("10.42.0.57".to_string()));
    assert_eq!(ipv4_from_ip_output(OUTPUT, Some("wlan1")), None);
}

#[test]
fn first_address_without_interface() {
    assert_eq!(ipv4_from_ip_output(OUTPUT, None), Some("127.0.0.1".to_string()));
    assert_eq!(ipv4_from_ip_output("", None), None);
    assert_eq!(ipv4_from_ip_output("3: x inet", None), None);
    assert_eq!(ipv4_from_ip_output("3: x    inet 192.168.49.7 scope", None), Some("192.168.49.7".to_string()));
}

#[test]
fn mac_normalization() {
    assert_eq!(normalize_mac("aa:bb:cc:0d:ee:ff\n"), "AA:BB:CC:0D:EE:FF");
    assert_eq!(normalize_mac("  02:00:00:00:00:00 "), "02:00:00:00:00:00");
    assert_eq!(normalize_mac(""), "");
}

use cattysend::netinfo::connect_plan;
use cattysend::netinfo::supports_multi_interface;
use cattysend::netinfo::total_limit_of;
use cattysend::netinfo::BearerStep;

#[test]
fn total_limit_lines() {
    assert_eq!(total_limit_of("\t\t   total <= 3, #channels <= 2"), Some(3));
    assert_eq!(total_limit_of("total <=1"), Some(1));
    assert_eq!(total_limit_of("total <= x, 2"), None);
    assert_eq!(total_limit_of("no limit here"), None);
    assert_eq!(total_limit_of("total <= 4294967296"), None);
}

#[test]
fn multi_interface_detection() {
    let list = "Wiphy phy0\n\tvalid interface combinations:\n\t\t * #{ managed } <= 1, #{ P2P-client, P2P-GO } <= 1,\n\t\t   total <= 3, #channels <= 2\n";
    assert!(supports_multi_interface(list, ""));
    let single = "Wiphy phy0\n\tvalid interface combinations:\n\t\t   total <= 1, #channels <= 1\n";
    assert!(!supports_multi_interface(single, "phy#0\n\tInterface wlan0\n"));
    assert!(supports_multi_interface(single, "phy#0\n\tUnnamed/non-netdev interface\n\t\twdev 0x2\n\tInterface p2p-dev-wlan0\n"));
    assert!(!supports_multi_interface("total <= 3", ""));
}

#[test]
fn bearer_plan_order() {
    assert_eq!(
        connect_plan(true, true),
        vec![BearerStep::P2pInterface, BearerStep::VirtualInterface, BearerStep::MainSupplicant, BearerStep::MainCli]
    );
    assert_eq!(connect_plan(true, false), vec![BearerStep::MainSupplicant, BearerStep::MainCli]);
    assert_eq!(connect_plan(false, true), vec![BearerStep::MainSupplicant, BearerStep::MainCli]);
}
