use cattysend::wifi::P2pConfig;
use cattysend::wifi::P2pReceiverConfig;
use cattysend::wifi::WiFiP2pReceiver;
use cattysend::wifi::WiFiP2pSender;

#[test]
fn test_p2p_config_default() {
    let config = P2pConfig::default();
    assert_eq!(config.interface, "wlan0");
    assert_eq!(config.ssid_prefix, "DIRECT-");
    assert!(config.use_5ghz);
}

#[test]
fn test_wifi_p2p_sender_new() {
    let sender = WiFiP2pSender::new("wlan1");
    drop(sender);
}

#[test]
fn test_wifi_p2p_sender_with_config() {
    let config = P2pConfig { interface: "wlp3s0".to_string(), ssid_prefix: "CAT-".to_string(), use_5ghz: false };
    let sender = WiFiP2pSender::with_config(config);
    drop(sender);
}

#[test]
fn test_generate_credentials() {
    let sender = WiFiP2pSender::new("wlan0");
    let (ssid, psk) = sender.generate_credentials();
    assert!(ssid.starts_with("DIRECT-"));
    assert_eq!(ssid.len(), 15);
    assert_eq!(psk.len(), 8);
    assert!(ssid[7..].chars().all(|c| c.is_ascii_digit() || c.is_ascii_lowercase()));
    assert!(psk.chars().all(|c| c.is_ascii_digit() || c.is_ascii_lowercase()));
}

#[test]
fn credentials_from_fixed_draws() {
    let config = P2pConfig::default();
    let (ssid, psk) = config.credentials_from_draws(&vec![0, 9, 10, 35, 36, 71, 1000, 37], &vec![35, 0]);
    assert_eq!(ssid, "DIRECT-09az0zs1");
    assert_eq!(psk, "z0");
}

#[test]
fn test_p2p_receiver_config_default() {
    let config = P2pReceiverConfig::default();
    assert_eq!(config.main_interface, "wlan0");
    assert!(config.p2p_device.is_none());
    assert!(config.preserve_wifi);
}

#[test]
fn test_wifi_p2p_receiver_new() {
    let receiver = WiFiP2pReceiver::new("wlan1");
    assert_eq!(receiver.active_interface(), "wlan1");
}

#[test]
fn receiver_dual_connection() {
    let mut receiver = WiFiP2pReceiver::with_config(P2pReceiverConfig::default());
    assert!(receiver.is_dual_connected());
    receiver.active_interface = Some("wlan0".to_string());
    assert!(!receiver.is_dual_connected());
    assert_eq!(receiver.active_interface(), "wlan0");
    receiver.active_interface = Some("p2p-wlan0-0".to_string());
    assert!(receiver.is_dual_connected());
    receiver.active_interface = Some("wlan0".to_string());
    receiver.created_virtual_interface = true;
    assert!(receiver.is_dual_connected());
}

use cattysend::messages::P2pInfo;

pub fn test_p2p_info() -> P2pInfo {
    P2pInfo::new("DIRECT-test123".to_string(), "testpsk1".to_string(), "00:11:22:33:44:55".to_string(), 8443)
}

pub fn test_encrypted_p2p_info() -> P2pInfo {
    P2pInfo::with_encryption(
        "test-sender-id".to_string(),
        "base64_encrypted_ssid".to_string(),
        "base64_encrypted_psk".to_string(),
        "base64_encrypted_mac".to_string(),
        8443,
        "base64_public_key".to_string(),
    )
}

#[test]
fn fixture_infos_serialize() {
    assert_eq!(
        test_p2p_info().to_json(),
        "{\"ssid\":\"DIRECT-test123\",\"psk\":\"testpsk1\",\"mac\":\"00:11:22:33:44:55\",\"port\":8443,\"catShare\":1}"
    );
    let enc = test_encrypted_p2p_info().to_json();
    assert!(enc.starts_with("{\"id\":\"test-sender-id\","));
    assert!(enc.contains("\"key\":\"base64_public_key\""));
}
