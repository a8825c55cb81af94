//! Session crypto: an ephemeral P-256 key pair whose public half travels as
//! Base64 SubjectPublicKeyInfo, a raw ECDH shared secret used directly as an
//! AES-256 key, and AES-256-CTR over UTF-8 text with a fixed ASCII IV.
use vstd::prelude::*;
use vstd::string::StrSliceExecFns;
use vstd::utf8::*;
use base64::Engine;
use aes::cipher::KeyIvInit;
use aes::cipher::StreamCipher;
use p256::pkcs8::DecodePublicKey;
use p256::pkcs8::EncodePublicKey;
use p256::elliptic_curve::sec1::ToEncodedPoint;

verus! {

broadcast use {encode_utf8_valid_utf8, encode_utf8_decode_utf8};

/// The counter block the peer starts from: the bytes of the ASCII text
/// `0102030405060708`.
pub const AES_IV: [u8; 16] = [
    0x30, 0x31, 0x30, 0x32, 0x30, 0x33, 0x30, 0x34, 0x30, 0x35, 0x30, 0x36, 0x30, 0x37, 0x30, 0x38,
];

/// Standard Base64 (with padding) of `b`.
pub uninterp spec fn base64_text(b: Seq<u8>) -> Seq<char>;

/// AES-256-CTR keystream of `key` from counter block `iv`, XORed onto `data`.
pub uninterp spec fn aes_ctr_stream(key: Seq<u8>, iv: Seq<u8>, data: Seq<u8>) -> Seq<u8>;

/// Whether `b` is a DER SubjectPublicKeyInfo holding a valid P-256 point.
pub uninterp spec fn spki_parses(b: Seq<u8>) -> bool;

/// Whether `b` is a SEC1 encoding of a valid P-256 point.
pub uninterp spec fn sec1_parses(b: Seq<u8>) -> bool;

/// Whether `b` is the big-endian encoding of a non-zero P-256 scalar below
/// the group order.
pub uninterp spec fn scalar_valid(b: Seq<u8>) -> bool;

/// The SEC1 uncompressed encoding of the public point of secret scalar `s`.
pub uninterp spec fn public_point(s: Seq<u8>) -> Seq<u8>;

/// The SEC1 uncompressed encoding of the point that SubjectPublicKeyInfo
/// `b` holds.
pub uninterp spec fn spki_point(b: Seq<u8>) -> Seq<u8>;

/// The SubjectPublicKeyInfo DER of the public point of secret scalar `s`.
pub uninterp spec fn spki_of_secret(s: Seq<u8>) -> Seq<u8>;

/// The raw ECDH shared secret of scalar `s` and SEC1 point `p`: the 32-byte
/// big-endian x-coordinate of `s·P`, with no key derivation.
pub uninterp spec fn ecdh_secret(s: Seq<u8>, p: Seq<u8>) -> Seq<u8>;

/// Relies on `base64::engine::general_purpose::STANDARD.encode`.
/// Encoding is one to one: no other byte string has the same text.
#[verifier::external_body]
fn base64_encode(b: &[u8]) -> (r: String)
    ensures
        r@ == base64_text(b@),
        forall|x: Seq<u8>| #[trigger] base64_text(x) == r@ ==> x == b@,
{
    base64::engine::general_purpose::STANDARD.encode(b)
}

/// Relies on `base64::engine::general_purpose::STANDARD.decode`: the standard
/// engine accepts only canonical padded Base64, so it succeeds exactly on the
/// encodings of byte strings and returns the bytes encoded.
#[verifier::external_body]
fn base64_decode(s: &str) -> (r: Option<Vec<u8>>)
    ensures
        r is Some ==> base64_text(r->0@) == s@,
        forall|x: Seq<u8>| #[trigger] base64_text(x) == s@ ==> (r is Some && r->0@ == x),
{
    base64::engine::general_purpose::STANDARD.decode(s).ok()
}

/// Relies on `ctr::Ctr128BE<aes::Aes256>` and `StreamCipher::apply_keystream`:
/// the buffer is XORed with the keystream, so applying it twice restores it.
#[verifier::external_body]
fn apply_aes_ctr(key: &[u8; 32], iv: &[u8; 16], buf: &mut Vec<u8>)
    ensures
        final(buf)@ == aes_ctr_stream(key@, iv@, old(buf)@),
        final(buf)@.len() == old(buf)@.len(),
        forall|x: Seq<u8>| #[trigger] aes_ctr_stream(key@, iv@, x) == old(buf)@ ==> final(buf)@ == x,
{
    let mut cipher = ctr::Ctr128BE::<aes::Aes256>::new(key.into(), iv.into());
    cipher.apply_keystream(buf.as_mut_slice());
}

/// Relies on `SecretKey::random` with the operating system's RNG, and
/// `SecretKey::to_bytes`: a valid secret scalar.
#[verifier::external_body]
fn random_secret_scalar() -> (r: [u8; 32])
    ensures
        scalar_valid(r@),
{
    p256::SecretKey::random(&mut rand::rngs::OsRng).to_bytes().into()
}

/// Relies on `SecretKey::from_bytes`, `SecretKey::public_key` and
/// `EncodePublicKey::to_public_key_der`: the public point (65 bytes,
/// uncompressed) in the fixed P-256 SubjectPublicKeyInfo structure, a DER
/// SEQUENCE of 91 bytes. Encoding a fixed-size point into that structure
/// cannot fail.
#[verifier::external_body]
fn public_key_der(secret: &[u8; 32]) -> (r: Vec<u8>)
    requires
        scalar_valid(secret@),
    ensures
        r@ == spki_of_secret(secret@),
        r@.len() == 91,
        r@[0] == 0x30,
        spki_parses(r@),
        spki_point(r@) == public_point(secret@),
{
    let key = p256::SecretKey::from_bytes(secret.into()).unwrap();
    key.public_key().to_public_key_der().unwrap().as_bytes().to_vec()
}

/// Relies on `PublicKey::from_public_key_der`; an accepted key is handed on
/// as its SEC1 uncompressed point (`to_encoded_point(false)`).
#[verifier::external_body]
fn point_from_spki(b: &[u8]) -> (r: Option<Vec<u8>>)
    ensures
        r is Some == spki_parses(b@),
        r is Some ==> sec1_parses(r->0@) && r->0@ == spki_point(b@),
{
    match p256::PublicKey::from_public_key_der(b) {
        Ok(pk) => Some(pk.to_encoded_point(false).as_bytes().to_vec()),
        Err(_) => None,
    }
}

/// Relies on `PublicKey::from_sec1_bytes`; an accepted key is handed on as
/// its SEC1 uncompressed point (`to_encoded_point(false)`), which for an
/// uncompressed input is the input itself.
#[verifier::external_body]
fn point_from_sec1(b: &[u8]) -> (r: Option<Vec<u8>>)
    ensures
        r is Some == sec1_parses(b@),
        r is Some ==> sec1_parses(r->0@),
        r is Some && b@.len() == 65 && b@[0] == 0x04 ==> r->0@ == b@,
{
    match p256::PublicKey::from_sec1_bytes(b) {
        Ok(pk) => Some(pk.to_encoded_point(false).as_bytes().to_vec()),
        Err(_) => None,
    }
}

/// Relies on `p256::ecdh::diffie_hellman` and `SharedSecret::raw_secret_bytes`:
/// the raw 32-byte shared x-coordinate, with no key derivation applied. As
/// Diffie-Hellman, the two sides agree: with the peer's point being the
/// public point of scalar `o`, the result is also `o` agreed with this
/// side's public point.
#[verifier::external_body]
fn raw_shared_secret(secret: &[u8; 32], peer_point: &[u8]) -> (r: [u8; 32])
    requires
        scalar_valid(secret@),
        sec1_parses(peer_point@),
    ensures
        r@ == ecdh_secret(secret@, peer_point@),
        forall|o: Seq<u8>|
            scalar_valid(o) && peer_point@ == public_point(o) ==> r@ == #[trigger] ecdh_secret(
                o,
                public_point(secret@),
            ),
{
    let key = p256::SecretKey::from_bytes(secret.into()).unwrap();
    let peer = p256::PublicKey::from_sec1_bytes(peer_point).unwrap();
    let shared = p256::ecdh::diffie_hellman(key.to_nonzero_scalar(), peer.as_affine());
    let mut out = [0u8; 32];
    out.copy_from_slice(shared.raw_secret_bytes().as_slice());
    out
}

/// Why a crypto operation failed.
#[derive(Debug, Clone, Copy, PartialEq, Eq, Structural)]
pub enum CryptoError {
    /// The peer key is neither SubjectPublicKeyInfo nor SEC1 uncompressed.
    InvalidPeerKey,
    /// A ciphertext is not valid Base64.
    InvalidBase64,
    /// A decrypted ciphertext is not valid UTF-8.
    InvalidUtf8,
}

/// The Base64 ciphertext of text `p` under `key`.
pub open spec fn encrypted_text(key: Seq<u8>, p: Seq<char>) -> Seq<char> {
    base64_text(aes_ctr_stream(key, AES_IV@, encode_utf8(p)))
}

/// Whether `s` is the Base64 encoding of some byte string.
pub open spec fn is_base64(s: Seq<char>) -> bool {
    exists|x: Seq<u8>| base64_text(x) == s
}

/// The bytes that `s` encodes in Base64.
pub open spec fn base64_bytes(s: Seq<char>) -> Seq<u8> {
    choose|x: Seq<u8>| base64_text(x) == s
}

/// The plaintext bytes of Base64 ciphertext `c` under `key`.
pub open spec fn decrypted_bytes(key: Seq<u8>, c: Seq<char>) -> Seq<u8> {
    aes_ctr_stream(key, AES_IV@, base64_bytes(c))
}

/// Which peer key encodings are accepted: SubjectPublicKeyInfo, or a 65-byte
/// SEC1 uncompressed point.
pub open spec fn peer_key_accepted(b: Seq<u8>) -> bool {
    spki_parses(b) || (b.len() == 65 && b[0] == 0x04 && sec1_parses(b))
}

/// The point a peer key stands for, as the parser reads it: SubjectPublicKeyInfo
/// when it starts with a DER sequence tag and parses, else a SEC1
/// uncompressed point, else SubjectPublicKeyInfo.
pub open spec fn peer_point(b: Seq<u8>) -> Seq<u8> {
    if b.len() > 0 && b[0] == 0x30 && spki_parses(b) {
        spki_point(b)
    } else if b.len() == 65 && b[0] == 0x04 && sec1_parses(b) {
        b
    } else {
        spki_point(b)
    }
}

/// Whether a Base64 peer key is accepted.
pub open spec fn peer_key_text_accepted(s: Seq<char>) -> bool {
    is_base64(s) && peer_key_accepted(base64_bytes(s))
}

fn encrypt_with(key: &[u8; 32], data: &str) -> (r: String)
    ensures
        r@ == encrypted_text(key@, data@),
        aes_ctr_stream(key@, AES_IV@, encode_utf8(data@)).len() == encode_utf8(data@).len(),
{
    let mut buf = data.as_bytes_vec();
    let iv = AES_IV;
    apply_aes_ctr(key, &iv, &mut buf);
    base64_encode(buf.as_slice())
}

fn decrypt_with(key: &[u8; 32], encoded: &str) -> (r: Result<String, CryptoError>)
    ensures
        r is Err ==> (r matches Err(CryptoError::InvalidBase64) || r matches Err(CryptoError::InvalidUtf8)),
        r matches Err(CryptoError::InvalidBase64) <==> !is_base64(encoded@),
        r matches Err(CryptoError::InvalidUtf8) <==> (is_base64(encoded@) && !valid_utf8(
            decrypted_bytes(key@, encoded@),
        )),
        r is Ok ==> r->Ok_0@ == decode_utf8(decrypted_bytes(key@, encoded@)),
        forall|p: Seq<char>| #[trigger] encrypted_text(key@, p) == encoded@ ==> (r is Ok
            && r->Ok_0@ == p),
{
    match base64_decode(encoded) {
        None => {
            assert(!is_base64(encoded@));
            Err(CryptoError::InvalidBase64)
        },
        Some(mut buf) => {
            assert(base64_text(buf@) == encoded@);
            assert(base64_bytes(encoded@) == buf@);
            let iv = AES_IV;
            apply_aes_ctr(key, &iv, &mut buf);
            assert forall|p: Seq<char>| #[trigger] encrypted_text(key@, p) == encoded@ implies valid_utf8(
                buf@,
            ) && decode_utf8(buf@) == p by {
                assert(base64_text(aes_ctr_stream(key@, AES_IV@, encode_utf8(p))) == encoded@);
                assert(buf@ == encode_utf8(p));
            }
            match crate::text::string_from_utf8(buf) {
                None => Err(CryptoError::InvalidUtf8),
                Some(s) => Ok(s),
            }
        },
    }
}

/// A session cipher keyed by a raw ECDH shared secret.
pub struct SessionCipher {
    pub(crate) key: [u8; 32],
}

/// A borrowed view of a [`SessionCipher`].
pub struct SessionCipherRef<'a> {
    key: &'a [u8; 32],
}

impl SessionCipher {
    /// The 32 key bytes.
    pub closed spec fn key_bytes(&self) -> Seq<u8> {
        self.key@
    }

    /// A cipher over the given raw key.
    pub fn new(key: [u8; 32]) -> (r: Self)
        ensures
            r.key_bytes() == key@,
    {
        SessionCipher { key }
    }

    /// The raw key bytes.
    pub fn key(&self) -> (r: [u8; 32])
        ensures
            r@ == self.key_bytes(),
    {
        self.key
    }

    /// A borrowed cipher with the same key.
    pub fn as_ref(&self) -> (r: SessionCipherRef<'_>)
        ensures
            r.key_bytes() == self.key_bytes(),
    {
        SessionCipherRef { key: &self.key }
    }

    /// Encrypts UTF-8 text with AES-256-CTR from the fixed IV; returns Base64.
    /// Never fails.
    pub fn encrypt(&self, data: &str) -> (r: Result<String, CryptoError>)
        ensures
            r is Ok,
            r->Ok_0@ == encrypted_text(self.key_bytes(), data@),
            aes_ctr_stream(self.key_bytes(), AES_IV@, encode_utf8(data@)).len() == encode_utf8(
                data@,
            ).len(),
    {
        Ok(encrypt_with(&self.key, data))
    }

    /// Decrypts a Base64 ciphertext back to text. The text that was encrypted
    /// under this key always comes back.
    pub fn decrypt(&self, encoded: &str) -> (r: Result<String, CryptoError>)
        ensures
            r is Err ==> (r matches Err(CryptoError::InvalidBase64) || r matches Err(CryptoError::InvalidUtf8)),
        r matches Err(CryptoError::InvalidBase64) <==> !is_base64(encoded@),
            r matches Err(CryptoError::InvalidUtf8) <==> (is_base64(encoded@) && !valid_utf8(
                decrypted_bytes(self.key_bytes(), encoded@),
            )),
            r is Ok ==> r->Ok_0@ == decode_utf8(decrypted_bytes(self.key_bytes(), encoded@)),
            forall|p: Seq<char>| #[trigger] encrypted_text(self.key_bytes(), p) == encoded@ ==> (
            r is Ok && r->Ok_0@ == p),
    {
        decrypt_with(&self.key, encoded)
    }
}

impl<'a> SessionCipherRef<'a> {
    /// The 32 key bytes.
    pub closed spec fn key_bytes(&self) -> Seq<u8> {
        self.key@
    }

    /// Encrypts as [`SessionCipher::encrypt`] does.
    pub fn encrypt(&self, data: &str) -> (r: Result<String, CryptoError>)
        ensures
            r is Ok,
            r->Ok_0@ == encrypted_text(self.key_bytes(), data@),
            aes_ctr_stream(self.key_bytes(), AES_IV@, encode_utf8(data@)).len() == encode_utf8(
                data@,
            ).len(),
    {
        Ok(encrypt_with(self.key, data))
    }

    /// Decrypts as [`SessionCipher::decrypt`] does.
    pub fn decrypt(&self, encoded: &str) -> (r: Result<String, CryptoError>)
        ensures
            r is Err ==> (r matches Err(CryptoError::InvalidBase64) || r matches Err(CryptoError::InvalidUtf8)),
        r matches Err(CryptoError::InvalidBase64) <==> !is_base64(encoded@),
            r matches Err(CryptoError::InvalidUtf8) <==> (is_base64(encoded@) && !valid_utf8(
                decrypted_bytes(self.key_bytes(), encoded@),
            )),
            r is Ok ==> r->Ok_0@ == decode_utf8(decrypted_bytes(self.key_bytes(), encoded@)),
            forall|p: Seq<char>| #[trigger] encrypted_text(self.key_bytes(), p) == encoded@ ==> (
            r is Ok && r->Ok_0@ == p),
    {
        decrypt_with(self.key, encoded)
    }
}

/// An ephemeral P-256 key pair for one session.
pub struct BleSecurity {
    secret: [u8; 32],
    public_key_b64: String,
}

impl BleSecurity {
    /// The Base64 SubjectPublicKeyInfo of the public half.
    pub closed spec fn public_key_text(&self) -> Seq<char> {
        self.public_key_b64@
    }

    /// The DER SubjectPublicKeyInfo of the public half.
    pub closed spec fn public_key_der_spec(&self) -> Seq<u8> {
        spki_of_secret(self.secret@)
    }

    /// The public point, SEC1 uncompressed.
    pub closed spec fn point(&self) -> Seq<u8> {
        public_point(self.secret@)
    }

    /// The session key this pair agrees on with a Base64 peer key.
    pub closed spec fn agreed_key(&self, peer: Seq<char>) -> Seq<u8> {
        ecdh_secret(self.secret@, peer_point(base64_bytes(peer)))
    }

    /// The secret half is a usable scalar, and the public key text is the
    /// Base64 of its SubjectPublicKeyInfo.
    pub closed spec fn wf(&self) -> bool {
        let der = spki_of_secret(self.secret@);
        &&& scalar_valid(self.secret@)
        &&& self.public_key_b64@ == base64_text(der)
        &&& base64_bytes(self.public_key_b64@) == der
        &&& der.len() == 91
        &&& der[0] == 0x30
        &&& spki_parses(der)
        &&& spki_point(der) == public_point(self.secret@)
    }

    /// Generates a fresh key pair. It does not fail: the operating system's
    /// RNG panics rather than return an error.
    pub fn new() -> (r: Result<Self, CryptoError>)
        ensures
            r is Ok,
            r->Ok_0.wf(),
            r->Ok_0.public_key_text() == base64_text(r->Ok_0.public_key_der_spec()),
            r->Ok_0.public_key_der_spec().len() == 91,
            r->Ok_0.public_key_der_spec()[0] == 0x30,
    {
        let secret = random_secret_scalar();
        let der = public_key_der(&secret);
        let public_key_b64 = base64_encode(der.as_slice());
        assert(base64_bytes(public_key_b64@) == der@);
        Ok(BleSecurity { secret, public_key_b64 })
    }

    /// The Base64 public key, as sent to the peer.
    pub fn get_public_key(&self) -> (r: &str)
        ensures
            r@ == self.public_key_text(),
    {
        self.public_key_b64.as_str()
    }

    /// Parses a peer key to its SEC1 uncompressed point: SubjectPublicKeyInfo
    /// first when it starts with a DER sequence tag, then SEC1 uncompressed,
    /// then SubjectPublicKeyInfo.
    pub fn parse_public_key(bytes: &[u8]) -> (r: Result<Vec<u8>, CryptoError>)
        ensures
            r is Ok == peer_key_accepted(bytes@),
            r is Ok ==> sec1_parses(r->Ok_0@) && r->Ok_0@ == peer_point(bytes@),
            r is Err ==> r == Err::<Vec<u8>, CryptoError>(CryptoError::InvalidPeerKey),
    {
        if bytes.len() > 0 && bytes[0] == 0x30 {
            if let Some(point) = point_from_spki(bytes) {
                return Ok(point);
            }
        }
        if bytes.len() == 65 && bytes[0] == 0x04 {
            if let Some(point) = point_from_sec1(bytes) {
                return Ok(point);
            }
        }
        match point_from_spki(bytes) {
            Some(point) => Ok(point),
            None => Err(CryptoError::InvalidPeerKey),
        }
    }

    /// Consumes the key pair and agrees on a session key with the peer's
    /// Base64 public key: the raw ECDH secret. Agreement is symmetric: on
    /// the public key of another pair, the key is the one that pair agrees
    /// on with this pair's public key.
    pub fn derive_session_key(self, peer_pub_key_b64: &str) -> (r: Result<SessionCipher, CryptoError>)
        requires
            self.wf(),
        ensures
            r is Ok <==> peer_key_text_accepted(peer_pub_key_b64@),
            r is Err ==> r == Err::<SessionCipher, CryptoError>(CryptoError::InvalidPeerKey),
            r is Ok ==> r->Ok_0.key_bytes() == self.agreed_key(peer_pub_key_b64@),
            forall|o: BleSecurity|
                o.wf() && peer_pub_key_b64@ == o.public_key_text() ==> (r is Ok
                    && r->Ok_0.key_bytes() == #[trigger] o.agreed_key(self.public_key_text())),
    {
        match base64_decode(peer_pub_key_b64) {
            None => Err(CryptoError::InvalidPeerKey),
            Some(bytes) => {
                assert(base64_bytes(peer_pub_key_b64@) == bytes@);
                match Self::parse_public_key(bytes.as_slice()) {
                    Err(e) => Err(e),
                    Ok(point) => {
                        let key = raw_shared_secret(&self.secret, point.as_slice());
                        let r = SessionCipher { key };
                        assert forall|o: BleSecurity|
                            o.wf() && peer_pub_key_b64@ == o.public_key_text() implies r.key_bytes()
                            == #[trigger] o.agreed_key(self.public_key_text()) by {
                            assert(bytes@ == o.public_key_der_spec());
                            assert(point@ == public_point(o.secret@));
                            assert(peer_point(base64_bytes(self.public_key_text())) == public_point(self.secret@));
                        }
                        Ok(r)
                    },
                }
            },
        }
    }
}

} // verus!
