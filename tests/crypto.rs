use aes::cipher::KeyIvInit;
use aes::cipher::StreamCipher;
use base64::Engine;
use cattysend::crypto::BleSecurity;
use cattysend::crypto::CryptoError;
use cattysend::crypto::SessionCipher;
use cattysend::crypto::AES_IV;

fn b64_decode(s: &str) -> Vec<u8> {
    base64::engine::general_purpose::STANDARD.decode(s).unwrap()
}

#[test]
fn test_aes_iv_is_ascii() {
    assert_eq!(&AES_IV, b"0102030405060708");
    assert_eq!(AES_IV[0], 0x30);
    assert_eq!(AES_IV[1], 0x31);
    assert_eq!(AES_IV[2], 0x30);
    assert_eq!(AES_IV[3], 0x32);
}

#[test]
fn aes_iv_full_sequence() {
    assert_eq!(
        AES_IV,
        [0x30, 0x31, 0x30, 0x32, 0x30, 0x33, 0x30, 0x34, 0x30, 0x35, 0x30, 0x36, 0x30, 0x37, 0x30, 0x38]
    );
}

#[test]
fn test_encrypt_decrypt_roundtrip() {
    let key = [0u8; 32];
    let cipher = SessionCipher::new(key);
    let plaintext = "Hello, 互传联盟!";
    let encrypted = cipher.encrypt(plaintext).unwrap();
    let decrypted = cipher.decrypt(&encrypted).unwrap();
    assert_eq!(plaintext, decrypted);
}

#[test]
fn test_public_key_is_spki_format() {
    let security = BleSecurity::new().unwrap();
    let pub_key_bytes = b64_decode(security.get_public_key());
    assert_eq!(pub_key_bytes[0], 0x30, "Public key should be SPKI format (starts with 0x30)");
    assert!(
        pub_key_bytes.len() >= 88 && pub_key_bytes.len() <= 92,
        "SPKI P-256 public key should be ~91 bytes, got {}",
        pub_key_bytes.len()
    );
}

#[test]
fn test_ecdh_key_agreement() {
    let alice = BleSecurity::new().unwrap();
    let bob = BleSecurity::new().unwrap();
    let alice_pub = alice.get_public_key().to_string();
    let bob_pub = bob.get_public_key().to_string();
    let alice_cipher = alice.derive_session_key(&bob_pub).unwrap();
    let bob_cipher = bob.derive_session_key(&alice_pub).unwrap();
    assert_eq!(alice_cipher.key(), bob_cipher.key(), "Shared secret should be identical");
}

#[test]
fn test_parse_sec1_public_key() {
    let security = BleSecurity::new().unwrap();
    let spki_bytes = b64_decode(security.get_public_key());
    let parsed = BleSecurity::parse_public_key(&spki_bytes);
    assert!(parsed.is_ok(), "Should parse SPKI format");
}

#[test]
fn sec1_uncompressed_peer_key_is_accepted() {
    let security = BleSecurity::new().unwrap();
    let spki_bytes = b64_decode(security.get_public_key());
    let point = BleSecurity::parse_public_key(&spki_bytes).unwrap();
    assert_eq!(point.len(), 65);
    assert_eq!(point[0], 0x04);
    // the point on its own is accepted too, and agreement gives the same key
    let sec1_b64 = base64::engine::general_purpose::STANDARD.encode(&point);
    let other = BleSecurity::new().unwrap();
    let other_pub = other.get_public_key().to_string();
    let k1 = other.derive_session_key(&sec1_b64).unwrap();
    let k2 = security.derive_session_key(&other_pub).unwrap();
    assert_eq!(k1.key(), k2.key());
}

#[test]
fn invalid_peer_key_is_refused() {
    let security = BleSecurity::new().unwrap();
    let junk = base64::engine::general_purpose::STANDARD.encode([0x30u8, 1, 2, 3]);
    assert_eq!(security.derive_session_key(&junk).err(), Some(CryptoError::InvalidPeerKey));
    let security = BleSecurity::new().unwrap();
    assert_eq!(security.derive_session_key("not base64!").err(), Some(CryptoError::InvalidPeerKey));
}

#[test]
fn test_encrypt_empty_string() {
    let key = [42u8; 32];
    let cipher = SessionCipher::new(key);
    let encrypted = cipher.encrypt("").unwrap();
    let decrypted = cipher.decrypt(&encrypted).unwrap();
    assert_eq!("", decrypted);
}

#[test]
fn test_encrypt_large_data() {
    let key = [0xAB; 32];
    let cipher = SessionCipher::new(key);
    let plaintext = "A".repeat(10000);
    let encrypted = cipher.encrypt(&plaintext).unwrap();
    let decrypted = cipher.decrypt(&encrypted).unwrap();
    assert_eq!(plaintext, decrypted);
}

#[test]
fn test_encrypt_unicode() {
    let key = [0xCD; 32];
    let cipher = SessionCipher::new(key);
    let plaintext = "中文测试 🎉 日本語 العربية";
    let encrypted = cipher.encrypt(plaintext).unwrap();
    let decrypted = cipher.decrypt(&encrypted).unwrap();
    assert_eq!(plaintext, decrypted);
}

#[test]
fn ciphertext_is_not_plaintext_and_tracks_length() {
    let cipher = SessionCipher::new([7u8; 32]);
    let encrypted = cipher.encrypt("secretpass").unwrap();
    let raw = b64_decode(&encrypted);
    assert_eq!(raw.len(), "secretpass".len());
    assert_ne!(raw, b"secretpass".to_vec());
}

#[test]
fn ciphertext_under_zero_key_matches_aes_ctr() {
    // AES-256 of the counter block "0102030405060708" under the zero key,
    // XORed onto zero bytes, is the keystream itself.
    let key = [0u8; 32];
    let mut expected = vec![0u8; 20];
    let mut c = ctr::Ctr128BE::<aes::Aes256>::new(&key.into(), b"0102030405060708".into());
    c.apply_keystream(&mut expected);
    let cipher = SessionCipher::new(key);
    let text = String::from_utf8(vec![0u8; 20]).unwrap();
    let encrypted = cipher.encrypt(&text).unwrap();
    assert_eq!(b64_decode(&encrypted), expected);
}

#[test]
fn decrypt_errors() {
    let cipher = SessionCipher::new([1u8; 32]);
    assert_eq!(cipher.decrypt("%%%").err(), Some(CryptoError::InvalidBase64));
    // find a two-byte ciphertext whose plaintext is not UTF-8
    let mut found = false;
    for b in 0u8..=255 {
        let ct = base64::engine::general_purpose::STANDARD.encode([b, 0]);
        if cipher.decrypt(&ct).err() == Some(CryptoError::InvalidUtf8) {
            found = true;
            break;
        }
    }
    assert!(found);
}

#[test]
fn borrowed_cipher_agrees() {
    let cipher = SessionCipher::new([9u8; 32]);
    let r = cipher.as_ref();
    let e = r.encrypt("abc").unwrap();
    assert_eq!(e, cipher.encrypt("abc").unwrap());
    assert_eq!(r.decrypt(&e).unwrap(), "abc");
}
