use cattysend::nm::build_hotspot_settings;
use cattysend::nm::build_wifi_client_settings;
use cattysend::nm::hotspot_band;
use cattysend::nm::Setting;
use cattysend::nm::SettingValue;

fn find<'a>(s: &'a [Setting], section: &str, key: &str) -> Option<&'a SettingValue> {
    s.iter().find(|x| x.section == section && x.key == key).map(|x| &x.value)
}

#[test]
fn hotspot_template() {
    let s = build_hotspot_settings("DIRECT-abcd1234", "secretpa", hotspot_band(true), "wlan0");
    assert_eq!(s.len(), 11);
    assert_eq!(find(&s, "connection", "id"), Some(&SettingValue::Text("cattysend-hotspot-DIRECT-a".to_string())));
    assert_eq!(find(&s, "connection", "type"), Some(&SettingValue::Text("802-11-wireless".to_string())));
    assert_eq!(find(&s, "connection", "autoconnect"), Some(&SettingValue::Flag(false)));
    assert_eq!(find(&s, "connection", "interface-name"), Some(&SettingValue::Text("wlan0".to_string())));
    assert_eq!(find(&s, "802-11-wireless", "ssid"), Some(&SettingValue::Bytes(b"DIRECT-abcd1234".to_vec())));
    assert_eq!(find(&s, "802-11-wireless", "mode"), Some(&SettingValue::Text("ap".to_string())));
    assert_eq!(find(&s, "802-11-wireless", "band"), Some(&SettingValue::Text("a".to_string())));
    assert_eq!(find(&s, "802-11-wireless-security", "key-mgmt"), Some(&SettingValue::Text("wpa-psk".to_string())));
    assert_eq!(find(&s, "802-11-wireless-security", "psk"), Some(&SettingValue::Text("secretpa".to_string())));
    assert_eq!(find(&s, "ipv4", "method"), Some(&SettingValue::Text("shared".to_string())));
    assert_eq!(find(&s, "ipv6", "method"), Some(&SettingValue::Text("ignore".to_string())));
    assert_eq!(hotspot_band(false), "bg");
}

#[test]
fn client_template() {
    let s = build_wifi_client_settings("abc", "pw", None);
    assert_eq!(s.len(), 9);
    assert_eq!(find(&s, "connection", "id"), Some(&SettingValue::Text("cattysend-wifi-abc".to_string())));
    assert!(find(&s, "connection", "interface-name").is_none());
    assert_eq!(find(&s, "802-11-wireless", "mode"), Some(&SettingValue::Text("infrastructure".to_string())));
    assert_eq!(find(&s, "ipv4", "method"), Some(&SettingValue::Text("auto".to_string())));
    let t = build_wifi_client_settings("abc", "pw", Some("p2p-dev-wlan0"));
    assert_eq!(t.len(), 10);
    assert_eq!(find(&t, "connection", "interface-name"), Some(&SettingValue::Text("p2p-dev-wlan0".to_string())));
}

use cattysend::nm::activation_step;
use cattysend::nm::name;
use cattysend::nm::ActivationStep;

#[test]
fn state_names() {
    assert_eq!(name(0), "UNKNOWN");
    assert_eq!(name(2), "ACTIVATED");
    assert_eq!(name(4), "DEACTIVATED");
    assert_eq!(name(9), "INVALID");
}

#[test]
fn activation_decisions() {
    assert_eq!(activation_step(2, 100, 15000), ActivationStep::Activated);
    assert_eq!(activation_step(1, 100, 15000), ActivationStep::Wait);
    assert_eq!(activation_step(0, 100, 15000), ActivationStep::Wait);
    assert_eq!(activation_step(3, 100, 15000), ActivationStep::Failed);
    assert_eq!(activation_step(4, 100, 15000), ActivationStep::Failed);
    assert_eq!(activation_step(2, 15001, 15000), ActivationStep::TimedOut);
}
