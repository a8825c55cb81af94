//! Rendezvous over GATT: the sender encrypts its Wi-Fi credentials for the
//! receiver's key; the receiver decrypts what was written to it.
use vstd::prelude::*;
use vstd::utf8::*;
use vstd::string::StrSliceExecFns;
use crate::crypto::decrypted_bytes;
use crate::crypto::encrypted_text;
use crate::crypto::is_base64;
use crate::crypto::peer_key_text_accepted;
use crate::crypto::BleSecurity;
use crate::crypto::CryptoError;
use crate::crypto::SessionCipher;
use crate::messages::DeviceInfo;
use crate::messages::P2pInfo;

verus! {

/// Whether Base64 ciphertext `c` decrypts to text under `key`.
pub open spec fn decrypts(key: Seq<u8>, c: Seq<char>) -> bool {
    is_base64(c) && valid_utf8(decrypted_bytes(key, c))
}

/// The text that `c` decrypts to under `key`.
pub open spec fn plain_of(key: Seq<u8>, c: Seq<char>) -> Seq<char> {
    decode_utf8(decrypted_bytes(key, c))
}

/// What the receiver hands on after a write to the P2P characteristic.
#[derive(Debug, Clone)]
pub struct P2pReceiveEvent {
    pub p2p_info: P2pInfo,
    /// The sender's public key as it arrived, if any.
    pub sender_public_key: Option<String>,
}

/// Field-level encryption of `P2pInfo`.
pub struct GattHandler;

impl GattHandler {
    /// Decrypts ssid, psk and mac; keeps id, port and version; clears the key.
    pub fn decrypt_p2p_info(encrypted_info: &P2pInfo, cipher: &SessionCipher) -> (r: Result<P2pInfo, CryptoError>)
        ensures
            r is Ok <==> (decrypts(cipher.key_bytes(), encrypted_info.ssid@) && decrypts(
                cipher.key_bytes(),
                encrypted_info.psk@,
            ) && decrypts(cipher.key_bytes(), encrypted_info.mac@)),
            r is Ok ==> ({
                let p = r->Ok_0;
                &&& p.ssid@ == plain_of(cipher.key_bytes(), encrypted_info.ssid@)
                &&& p.psk@ == plain_of(cipher.key_bytes(), encrypted_info.psk@)
                &&& p.mac@ == plain_of(cipher.key_bytes(), encrypted_info.mac@)
                &&& p.id == encrypted_info.id
                &&& p.port == encrypted_info.port
                &&& p.key is None
                &&& p.cat_share == encrypted_info.cat_share
            }),
            forall|s: Seq<char>, q: Seq<char>, m: Seq<char>|
                encrypted_info.ssid@ == #[trigger] encrypted_text(cipher.key_bytes(), s)
                    && encrypted_info.psk@ == #[trigger] encrypted_text(cipher.key_bytes(), q)
                    && encrypted_info.mac@ == #[trigger] encrypted_text(cipher.key_bytes(), m) ==> (
                r is Ok && r->Ok_0.ssid@ == s && r->Ok_0.psk@ == q && r->Ok_0.mac@ == m),
    {
        let ssid = match cipher.decrypt(encrypted_info.ssid.as_str()) {
            Ok(s) => s,
            Err(e) => {
                return Err(e);
            },
        };
        let psk = match cipher.decrypt(encrypted_info.psk.as_str()) {
            Ok(s) => s,
            Err(e) => {
                return Err(e);
            },
        };
        let mac = match cipher.decrypt(encrypted_info.mac.as_str()) {
            Ok(s) => s,
            Err(e) => {
                return Err(e);
            },
        };
        Ok(
            P2pInfo {
                id: encrypted_info.id.clone(),
                ssid,
                psk,
                mac,
                port: encrypted_info.port,
                key: None,
                cat_share: encrypted_info.cat_share,
            },
        )
    }

    /// Encrypts ssid, psk and mac and tags the result with the sender id and
    /// public key. Never fails.
    pub fn encrypt_p2p_info(
        info: &P2pInfo,
        cipher: &SessionCipher,
        sender_id: &str,
        sender_public_key: &str,
    ) -> (r: Result<P2pInfo, CryptoError>)
        ensures
            r is Ok,
            ({
                let p = r->Ok_0;
                &&& p.ssid@ == encrypted_text(cipher.key_bytes(), info.ssid@)
                &&& p.psk@ == encrypted_text(cipher.key_bytes(), info.psk@)
                &&& p.mac@ == encrypted_text(cipher.key_bytes(), info.mac@)
                &&& p.id is Some && p.id->0@ == sender_id@
                &&& p.key is Some && p.key->0@ == sender_public_key@
                &&& p.port == info.port
                &&& p.cat_share == Some(1i32)
            }),
    {
        let ssid = cipher.encrypt(info.ssid.as_str()).unwrap();
        let psk = cipher.encrypt(info.psk.as_str()).unwrap();
        let mac = cipher.encrypt(info.mac.as_str()).unwrap();
        Ok(
            P2pInfo::with_encryption(
                String::from_str(sender_id),
                ssid,
                psk,
                mac,
                info.port,
                String::from_str(sender_public_key),
            ),
        )
    }

    /// Receiver side of a P2P write: when the sender attached its key, a local
    /// key pair is at hand, and ssid, psk and mac all decrypt under the agreed
    /// key, hands on the plaintexts with the key cleared. Otherwise the info
    /// is handed on as it came, so a cleared key always means plaintext.
    pub fn open_received(info: P2pInfo, security: Option<BleSecurity>) -> (r: P2pReceiveEvent)
        requires
            security is Some ==> security->0.wf(),
        ensures
            r.sender_public_key == info.key,
            r.p2p_info.id == info.id,
            r.p2p_info.port == info.port,
            r.p2p_info.cat_share == info.cat_share,
            opens(info, security) ==> ({
                let k = security->0.agreed_key(info.key->0@);
                &&& r.p2p_info.ssid@ == plain_of(k, info.ssid@)
                &&& r.p2p_info.psk@ == plain_of(k, info.psk@)
                &&& r.p2p_info.mac@ == plain_of(k, info.mac@)
                &&& r.p2p_info.key is None
            }),
            !opens(info, security) ==> r.p2p_info == info,
    {
        let sender_public_key = info.key.clone();
        match (&info.key, security) {
            (Some(peer_key), Some(sec)) => {
                match sec.derive_session_key(peer_key.as_str()) {
                    Ok(cipher) => {
                        match Self::decrypt_p2p_info(&info, &cipher) {
                            Ok(opened) => P2pReceiveEvent { p2p_info: opened, sender_public_key },
                            Err(_) => P2pReceiveEvent { p2p_info: info, sender_public_key },
                        }
                    },
                    Err(_) => P2pReceiveEvent { p2p_info: info, sender_public_key },
                }
            },
            _ => P2pReceiveEvent { p2p_info: info, sender_public_key },
        }
    }

    /// Sender side of the handshake: what to write for a receiver. When the
    /// receiver offers a key, a fresh local key pair is agreed with it and the
    /// credentials go encrypted under the agreed key, tagged with the sender id
    /// and the local public key; otherwise they go as they are.
    pub fn prepare_p2p_info(device_info: &DeviceInfo, p2p_info: &P2pInfo, sender_id: &str) -> (r:
        Result<P2pInfo, CryptoError>)
        ensures
            device_info.key is None ==> (r is Ok && r->Ok_0 == *p2p_info),
            device_info.key is Some ==> (r is Ok <==> peer_key_text_accepted(device_info.key->0@)),
            r is Err ==> r == Err::<P2pInfo, CryptoError>(CryptoError::InvalidPeerKey),
            device_info.key is Some && r is Ok ==> (exists|s: BleSecurity|
                {
                    &&& s.wf()
                    &&& r->Ok_0.key is Some && r->Ok_0.key->0@ == s.public_key_text()
                    &&& r->Ok_0.ssid@ == encrypted_text(#[trigger] s.agreed_key(device_info.key->0@), p2p_info.ssid@)
                    &&& r->Ok_0.psk@ == encrypted_text(s.agreed_key(device_info.key->0@), p2p_info.psk@)
                    &&& r->Ok_0.mac@ == encrypted_text(s.agreed_key(device_info.key->0@), p2p_info.mac@)
                }),
            device_info.key is Some && r is Ok ==> ({
                let p = r->Ok_0;
                &&& p.id is Some && p.id->0@ == sender_id@
                &&& p.key is Some && is_base64(p.key->0@)
                &&& p.port == p2p_info.port
                &&& p.cat_share == Some(1i32)
            }),
    {
        match &device_info.key {
            None => Ok(p2p_info.clone_info()),
            Some(peer_key) => {
                let security = BleSecurity::new().unwrap();
                let ghost s = security;
                let public_key = String::from_str(security.get_public_key());
                let cipher = match security.derive_session_key(peer_key.as_str()) {
                    Ok(c) => c,
                    Err(e) => {
                        return Err(e);
                    },
                };
                let r = Self::encrypt_p2p_info(p2p_info, &cipher, sender_id, public_key.as_str());
                assert(r->Ok_0.ssid@ == encrypted_text(s.agreed_key(peer_key@), p2p_info.ssid@));
                r
            },
        }
    }
}

/// Whether a received write is opened: the sender attached an accepted key,
/// a local pair is at hand, and all three fields decrypt under the agreed key.
pub open spec fn opens(info: P2pInfo, security: Option<BleSecurity>) -> bool {
    &&& info.key is Some
    &&& security is Some
    &&& peer_key_text_accepted(info.key->0@)
    &&& decrypts(security->0.agreed_key(info.key->0@), info.ssid@)
    &&& decrypts(security->0.agreed_key(info.key->0@), info.psk@)
    &&& decrypts(security->0.agreed_key(info.key->0@), info.mac@)
}

impl P2pInfo {
    /// A field-by-field copy.
    pub fn clone_info(&self) -> (r: P2pInfo)
        ensures
            r.id == self.id,
            r.ssid == self.ssid,
            r.psk == self.psk,
            r.mac == self.mac,
            r.port == self.port,
            r.key == self.key,
            r.cat_share == self.cat_share,
    {
        P2pInfo {
            id: clone_opt(&self.id),
            ssid: self.ssid.clone(),
            psk: self.psk.clone(),
            mac: self.mac.clone(),
            port: self.port,
            key: clone_opt(&self.key),
            cat_share: self.cat_share,
        }
    }
}

fn clone_opt(s: &Option<String>) -> (r: Option<String>)
    ensures
        r == *s,
{
    match s {
        Some(v) => Some(v.clone()),
        None => None,
    }
}

} // verus!

verus! {

/// The UTF-8 bytes of the compact JSON of a `DeviceInfo`.
pub open spec fn device_info_bytes_spec(d: DeviceInfo) -> Seq<u8> {
    encode_utf8(crate::messages::device_info_json(d))
}

/// What the status characteristic serves: the identity and its JSON bytes.
pub struct GattServerState {
    pub device_info: DeviceInfo,
    pub device_info_bytes: Vec<u8>,
}

impl GattServerState {
    /// The state for a MAC address and Base64 public key.
    pub fn new(mac_address: String, public_key: String) -> (r: Self)
        ensures
            r.device_info.state == 0,
            r.device_info.key == Some(public_key),
            r.device_info.mac == mac_address,
            r.device_info.cat_share == Some(1i32),
            r.device_info_bytes@ == device_info_bytes_spec(r.device_info),
    {
        let device_info = DeviceInfo::new(public_key, mac_address);
        let device_info_bytes = device_info.to_json().as_str().as_bytes_vec();
        GattServerState { device_info, device_info_bytes }
    }

    /// Replaces the MAC address and re-encodes.
    pub fn update_mac(&mut self, mac: String)
        ensures
            final(self).device_info.mac == mac,
            final(self).device_info.state == old(self).device_info.state,
            final(self).device_info.key == old(self).device_info.key,
            final(self).device_info.cat_share == old(self).device_info.cat_share,
            final(self).device_info_bytes@ == device_info_bytes_spec(final(self).device_info),
    {
        self.device_info.mac = mac;
        self.device_info_bytes = self.device_info.to_json().as_str().as_bytes_vec();
    }

    /// A read of the status characteristic at a byte offset: the bytes from
    /// the offset on, empty past the end.
    pub fn read_at(&self, offset: usize) -> (r: Vec<u8>)
        ensures
            r@ == if offset < self.device_info_bytes@.len() {
                self.device_info_bytes@.subrange(offset as int, self.device_info_bytes@.len() as int)
            } else {
                Seq::empty()
            },
    {
        let mut out: Vec<u8> = Vec::new();
        let mut i: usize = offset;
        while i < self.device_info_bytes.len()
            invariant
                offset <= i,
                offset < self.device_info_bytes@.len() ==> i <= self.device_info_bytes@.len(),
                offset < self.device_info_bytes@.len() ==> out@ == self.device_info_bytes@.subrange(
                    offset as int,
                    i as int,
                ),
                offset >= self.device_info_bytes@.len() ==> out@.len() == 0,
            decreases self.device_info_bytes@.len() - i,
        {
            out.push(self.device_info_bytes[i]);
            i = i + 1;
            assert(out@ =~= self.device_info_bytes@.subrange(offset as int, i as int));
        }
        if offset < self.device_info_bytes.len() {
            assert(out@ =~= self.device_info_bytes@.subrange(offset as int, self.device_info_bytes@.len() as int));
        } else {
            assert(out@ =~= Seq::<u8>::empty());
        }
        out
    }
}

} // verus!

verus! {

/// Relies on `rand::random::<[u8; 2]>`: two random bytes.
#[verifier::external_body]
fn random_pair() -> (r: [u8; 2]) {
    rand::random::<[u8; 2]>()
}

/// The receiver's GATT identity: what it serves on the status
/// characteristic, what it advertises, and the key pair that opens the
/// credentials written to it.
pub struct GattServer {
    pub state: GattServerState,
    /// Two random bytes fixed for the server's lifetime; they are the sender id.
    pub random_data: [u8; 2],
    pub sender_id: String,
    pub device_name: String,
    pub security: Option<BleSecurity>,
    pub brand_id: crate::config::BrandId,
    pub supports_5ghz: bool,
}

impl GattServer {
    /// A server for a MAC address, device name and Base64 public key, with
    /// fresh random sender bytes, the Linux brand and 5 GHz.
    pub fn new(mac_address: String, device_name: String, public_key: String) -> (r: Self)
        ensures
            r.state.device_info.key == Some(public_key),
            r.state.device_info.mac == mac_address,
            r.state.device_info_bytes@ == device_info_bytes_spec(r.state.device_info),
            r.sender_id@ == crate::text::hex_fixed(r.random_data@[0] as nat, 2) + crate::text::hex_fixed(
                r.random_data@[1] as nat,
                2,
            ),
            r.device_name == device_name,
            r.security is None,
            r.brand_id == crate::config::BrandId::Linux,
            r.supports_5ghz,
    {
        let state = GattServerState::new(mac_address, public_key);
        let random_data = random_pair();
        let sender_id = crate::advert::sender_id_from_random_data(&random_data);
        GattServer {
            state,
            random_data,
            sender_id,
            device_name,
            security: None,
            brand_id: crate::config::BrandId::Linux,
            supports_5ghz: true,
        }
    }

    /// A server whose name, brand and band come from the settings.
    pub fn from_settings(mac_address: String, public_key: String, settings: &crate::config::AppSettings) -> (r: Self)
        ensures
            r.state.device_info.key == Some(public_key),
            r.state.device_info.mac == mac_address,
            r.device_name@ == settings.device_name@,
            r.brand_id == settings.brand_id,
            r.supports_5ghz == settings.supports_5ghz,
            r.security is None,
    {
        let mut server = GattServer::new(mac_address, settings.device_name.clone(), public_key);
        server.brand_id = settings.brand_id;
        server.supports_5ghz = settings.supports_5ghz;
        server
    }

    /// Attaches the key pair used to open encrypted writes.
    pub fn with_security(self, security: BleSecurity) -> (r: Self)
        ensures
            r.security == Some(security),
            r.random_data == self.random_data,
            r.brand_id == self.brand_id,
            r.supports_5ghz == self.supports_5ghz,
    {
        GattServer { security: Some(security), ..self }
    }

    /// Sets the advertised brand.
    pub fn with_brand(self, brand_id: crate::config::BrandId) -> (r: Self)
        ensures
            r.brand_id == brand_id,
            r.random_data == self.random_data,
            r.supports_5ghz == self.supports_5ghz,
    {
        GattServer { brand_id, ..self }
    }

    /// Sets the advertised 5 GHz capability.
    pub fn with_5ghz_support(self, supports_5ghz: bool) -> (r: Self)
        ensures
            r.supports_5ghz == supports_5ghz,
            r.random_data == self.random_data,
            r.brand_id == self.brand_id,
    {
        GattServer { supports_5ghz, ..self }
    }

    /// The sender id (four hex digits of the random bytes).
    pub fn sender_id(&self) -> (r: &str)
        ensures
            r@ == self.sender_id@,
    {
        self.sender_id.as_str()
    }

    /// The legacy advertisement and scan response for this server.
    pub fn legacy_payload(&self) -> (r: (Vec<u8>, Vec<u8>))
        ensures
            r.0@ == crate::advert::adv_payload(
                0x3331,
                crate::config::capability_value(self.supports_5ghz, crate::config::brand_id_value(self.brand_id)),
                seq![self.random_data@[0], self.random_data@[1], 0u8, 0u8, 0u8, 0u8],
            ),
            r.1@ == crate::advert::scan_response(encode_utf8(self.device_name@)),
            r.0@.len() <= 31,
            r.1@.len() <= 31,
    {
        crate::advert::build_legacy_payload(self.brand_id.id(), self.supports_5ghz, self.random_data, self.device_name.as_str())
    }

    /// The 27-byte service data carrying the sender id and short name.
    pub fn name_service_data(&self) -> (r: Vec<u8>)
        ensures
            r@ == crate::advert::name_service_data(self.random_data@, encode_utf8(self.device_name@)),
    {
        crate::advert::build_name_service_data(&self.random_data, self.device_name.as_str())
    }

    /// Serves a read of the status characteristic at a byte offset.
    pub fn read_status(&self, offset: usize) -> (r: Vec<u8>)
        ensures
            r@ == if offset < self.state.device_info_bytes@.len() {
                self.state.device_info_bytes@.subrange(offset as int, self.state.device_info_bytes@.len() as int)
            } else {
                Seq::empty()
            },
    {
        self.state.read_at(offset)
    }

    /// Handles a write to the P2P characteristic: opens it with the attached
    /// key pair (see [`GattHandler::open_received`]), which one write consumes.
    pub fn on_p2p_write(&mut self, info: P2pInfo) -> (r: P2pReceiveEvent)
        requires
            old(self).security is Some ==> old(self).security->0.wf(),
        ensures
            final(self).security is None,
            r.sender_public_key == info.key,
            r.p2p_info.id == info.id,
            r.p2p_info.port == info.port,
            r.p2p_info.cat_share == info.cat_share,
            opens(info, old(self).security) ==> ({
                let k = old(self).security->0.agreed_key(info.key->0@);
                &&& r.p2p_info.ssid@ == plain_of(k, info.ssid@)
                &&& r.p2p_info.psk@ == plain_of(k, info.psk@)
                &&& r.p2p_info.mac@ == plain_of(k, info.mac@)
                &&& r.p2p_info.key is None
            }),
            !opens(info, old(self).security) ==> r.p2p_info == info,
    {
        let security = self.security.take();
        GattHandler::open_received(info, security)
    }

}

} // verus!
