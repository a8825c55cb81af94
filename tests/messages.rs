use cattysend::messages::DeviceInfo;
use cattysend::messages::P2pInfo;
use cattysend::messages::SendRequest;
use cattysend::messages::ADV_SERVICE_UUID;
use cattysend::messages::MAIN_SERVICE_UUID;
use cattysend::messages::P2P_CHAR_UUID;
use cattysend::messages::SERVICE_UUID;
use cattysend::messages::STATUS_CHAR_UUID;

fn uuid_text(u: u128) -> String {
    uuid::Uuid::from_u128(u).to_string()
}

#[test]
fn test_uuid_constants() {
    assert_eq!(uuid_text(ADV_SERVICE_UUID), "00003331-0000-1000-8000-008123456789");
    assert_eq!(uuid_text(SERVICE_UUID), "00003331-0000-1000-8000-00805f9b34fb");
    assert_eq!(uuid_text(MAIN_SERVICE_UUID), "00009955-0000-1000-8000-00805f9b34fb");
    assert_eq!(uuid_text(STATUS_CHAR_UUID), "00009954-0000-1000-8000-00805f9b34fb");
    assert_eq!(uuid_text(P2P_CHAR_UUID), "00009953-0000-1000-8000-00805f9b34fb");
}

#[test]
fn test_device_info_serialization() {
    let info = DeviceInfo::new("BASE64KEY".to_string(), "AA:BB:CC:DD:EE:FF".to_string());
    let json = info.to_json();
    assert!(json.contains("\"state\":"));
    assert!(json.contains("\"key\":"));
    assert!(json.contains("\"mac\":"));
    assert!(json.contains("\"catShare\":"));
    let parsed: serde_json::Value = serde_json::from_str(&json).unwrap();
    assert_eq!(parsed["state"], 0);
    assert_eq!(parsed["key"], "BASE64KEY");
    assert_eq!(parsed["mac"], "AA:BB:CC:DD:EE:FF");
    assert_eq!(parsed["catShare"], 1);
}

#[test]
fn device_info_exact_json() {
    let info = DeviceInfo::new("BASE64KEY".to_string(), "AA:BB:CC:DD:EE:FF".to_string());
    assert_eq!(info.to_json(), "{\"state\":0,\"key\":\"BASE64KEY\",\"mac\":\"AA:BB:CC:DD:EE:FF\",\"catShare\":1}");
}

#[test]
fn test_device_info_skip_none() {
    let info = DeviceInfo { state: 0, key: None, mac: "AA:BB:CC:DD:EE:FF".to_string(), cat_share: None };
    let json = info.to_json();
    assert!(!json.contains("key"));
    assert!(!json.contains("catShare"));
}

#[test]
fn device_info_cat_share_written_in_camel_case() {
    let info = DeviceInfo {
        state: 0,
        key: Some("MFkwEwYHKoZIzj0CAQYIKoZIzj0DAQcDQgAE...".to_string()),
        mac: "AA:BB:CC:DD:EE:FF".to_string(),
        cat_share: Some(123),
    };
    let serialized = info.to_json();
    assert!(serialized.contains("\"catShare\":123"));
    assert!(!serialized.contains("\"cat_share\""));
}

#[test]
fn device_info_negative_state_and_escapes() {
    let info = DeviceInfo { state: -3, key: None, mac: "a\"b\\c\n".to_string(), cat_share: Some(-1) };
    let json = info.to_json();
    assert_eq!(json, "{\"state\":-3,\"mac\":\"a\\\"b\\\\c\\n\",\"catShare\":-1}");
    let parsed: serde_json::Value = serde_json::from_str(&json).unwrap();
    assert_eq!(parsed["mac"], "a\"b\\c\n");
}

#[test]
fn json_escaping_matches_serde_json() {
    let mac: String = (0u32..0x80).filter_map(char::from_u32).chain("é中🎉".chars()).collect();
    let info = DeviceInfo { state: 0, key: None, mac: mac.clone(), cat_share: None };
    let expected = format!("{{\"state\":0,\"mac\":{}}}", serde_json::to_string(&mac).unwrap());
    assert_eq!(info.to_json(), expected);
}

fn p2p_serialization_case() {
    let info = P2pInfo::new("DIRECT-abc".to_string(), "password123".to_string(), "AA:BB:CC:DD:EE:FF".to_string(), 8443);
    let json = info.to_json();
    assert!(json.contains("\"ssid\":"));
    assert!(json.contains("\"psk\":"));
    assert!(json.contains("\"mac\":"));
    assert!(json.contains("\"port\":"));
    assert!(json.contains("\"catShare\":"));
    let parsed: serde_json::Value = serde_json::from_str(&json).unwrap();
    assert_eq!(parsed["ssid"], "DIRECT-abc");
    assert_eq!(parsed["psk"], "password123");
    assert_eq!(parsed["mac"], "AA:BB:CC:DD:EE:FF");
    assert_eq!(parsed["port"], 8443);
    assert_eq!(parsed["catShare"], 1);
}

#[test]
fn mod_test_p2p_info_serialization() {
    p2p_serialization_case();
}

#[test]
fn tests_test_p2p_info_serialization() {
    p2p_serialization_case();
}

fn p2p_skip_none_case() {
    let info = P2pInfo::new("SSID".to_string(), "PSK".to_string(), "MAC".to_string(), 8080);
    let json = info.to_json();
    assert!(!json.contains("\"id\":"));
    assert!(!json.contains("\"key\":"));
}

#[test]
fn mod_test_p2p_info_skip_none() {
    p2p_skip_none_case();
}

#[test]
fn tests_test_p2p_info_skip_none() {
    p2p_skip_none_case();
}

fn p2p_with_encryption_case() {
    let info = P2pInfo::with_encryption(
        "sender123".to_string(),
        "encrypted_ssid".to_string(),
        "encrypted_psk".to_string(),
        "encrypted_mac".to_string(),
        8443,
        "public_key_base64".to_string(),
    );
    assert_eq!(info.id, Some("sender123".to_string()));
    assert_eq!(info.key, Some("public_key_base64".to_string()));
    assert_eq!(info.cat_share, Some(1));
}

#[test]
fn mod_test_p2p_info_with_encryption() {
    p2p_with_encryption_case();
}

#[test]
fn tests_test_p2p_info_with_encryption() {
    p2p_with_encryption_case();
}

fn p2p_server_url_case() {
    let info = P2pInfo::new("SSID".to_string(), "PSK".to_string(), "MAC".to_string(), 8443);
    assert_eq!(info.get_server_url("192.168.1.1"), "https://192.168.1.1:8443");
    assert_eq!(info.get_server_url("10.42.0.1"), "https://10.42.0.1:8443");
}

#[test]
fn mod_test_p2p_info_get_server_url() {
    p2p_server_url_case();
}

#[test]
fn tests_test_p2p_info_get_server_url() {
    p2p_server_url_case();
}

#[test]
fn p2p_info_exact_json() {
    let info = P2pInfo::with_encryption(
        "a1b2".to_string(),
        "S".to_string(),
        "P".to_string(),
        "M".to_string(),
        8443,
        "K".to_string(),
    );
    assert_eq!(
        info.to_json(),
        "{\"id\":\"a1b2\",\"ssid\":\"S\",\"psk\":\"P\",\"mac\":\"M\",\"port\":8443,\"key\":\"K\",\"catShare\":1}"
    );
    assert!(info.to_json().contains("\"catShare\":1"));
    assert!(!info.to_json().contains("\"cat_share\""));
}

#[test]
fn send_request_task_id_fallbacks() {
    let mut req = SendRequest {
        task_id: Some("T".to_string()),
        id: Some("I".to_string()),
        sender_id: None,
        sender_name: "S".to_string(),
        file_name: "f.bin".to_string(),
        mime_type: "application/octet-stream".to_string(),
        file_count: 1,
        total_size: 10,
        cat_share_text: None,
        thumbnail: None,
    };
    assert_eq!(req.get_task_id(), "T");
    req.task_id = None;
    assert_eq!(req.get_task_id(), "I");
    req.id = None;
    assert_eq!(req.get_task_id(), "unknown");
    assert_eq!(req.get_sender_id(), "unknown");
    req.sender_id = Some("ab12".to_string());
    assert_eq!(req.get_sender_id(), "ab12");
}

fn str_field(v: &serde_json::Value, k: &str) -> Option<String> {
    v.get(k).and_then(|x| x.as_str()).map(|s| s.to_string())
}

fn int_field(v: &serde_json::Value, k: &str) -> Option<i32> {
    v.get(k).and_then(|x| x.as_i64()).map(|n| n as i32)
}

#[test]
fn test_device_info_catshare_compatibility() {
    let catshare_json = r#"{
        "state": 0,
        "key": "MFkwEwYHKoZIzj0CAQYIKoZIzj0DAQcDQgAE...",
        "mac": "AA:BB:CC:DD:EE:FF",
        "catShare": 123
    }"#;
    let v: serde_json::Value = serde_json::from_str(catshare_json).unwrap();
    let device_info = DeviceInfo {
        state: int_field(&v, "state").unwrap(),
        key: str_field(&v, "key"),
        mac: str_field(&v, "mac").unwrap(),
        cat_share: int_field(&v, "catShare"),
    };
    assert_eq!(device_info.state, 0);
    assert_eq!(device_info.key, Some("MFkwEwYHKoZIzj0CAQYIKoZIzj0DAQcDQgAE...".to_string()));
    assert_eq!(device_info.mac, "AA:BB:CC:DD:EE:FF");
    assert_eq!(device_info.cat_share, Some(123));
    let serialized = device_info.to_json();
    assert!(serialized.contains("\"catShare\":123"));
    assert!(!serialized.contains("\"cat_share\""));
}

#[test]
fn test_p2p_info_catshare_compatibility() {
    let catshare_json = r#"{
        "id": "a1b2",
        "ssid": "ENCRYPTED_BASE64_SSID",
        "psk": "ENCRYPTED_BASE64_PSK",
        "mac": "ENCRYPTED_BASE64_MAC",
        "port": 8443,
        "key": "SENDER_PUBLIC_KEY_BASE64",
        "catShare": 1
    }"#;
    let v: serde_json::Value = serde_json::from_str(catshare_json).unwrap();
    let p2p_info = P2pInfo {
        id: str_field(&v, "id"),
        ssid: str_field(&v, "ssid").unwrap(),
        psk: str_field(&v, "psk").unwrap(),
        mac: str_field(&v, "mac").unwrap(),
        port: int_field(&v, "port").unwrap(),
        key: str_field(&v, "key"),
        cat_share: int_field(&v, "catShare"),
    };
    assert_eq!(p2p_info.id, Some("a1b2".to_string()));
    assert_eq!(p2p_info.ssid, "ENCRYPTED_BASE64_SSID");
    assert_eq!(p2p_info.psk, "ENCRYPTED_BASE64_PSK");
    assert_eq!(p2p_info.mac, "ENCRYPTED_BASE64_MAC");
    assert_eq!(p2p_info.port, 8443);
    assert_eq!(p2p_info.key, Some("SENDER_PUBLIC_KEY_BASE64".to_string()));
    assert_eq!(p2p_info.cat_share, Some(1));
    let serialized = p2p_info.to_json();
    assert!(serialized.contains("\"catShare\":1"));
    assert!(!serialized.contains("\"cat_share\""));
}
