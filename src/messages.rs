//! Payloads exchanged over BLE (`DeviceInfo`, `P2pInfo`) and over the
//! control channel (`SendRequest`), with their compact JSON forms: camelCase
//! keys, absent optional fields omitted.
use vstd::prelude::*;
use crate::text::contains_seq;
use crate::text::int_text;
use crate::text::json_quoted;
use crate::text::push_int;
use crate::text::push_json_string;
use crate::text::push_str;
use crate::text::string_of;

verus! {

/// Advertised service UUID (non-standard base used for GAP matching).
pub const ADV_SERVICE_UUID: u128 = 0x00003331_0000_1000_8000_008123456789;

/// The same 16-bit service on the standard Bluetooth base.
pub const SERVICE_UUID: u128 = 0x00003331_0000_1000_8000_00805f9b34fb;

/// GATT primary service.
pub const MAIN_SERVICE_UUID: u128 = 0x00009955_0000_1000_8000_00805f9b34fb;

/// Readable characteristic that serves `DeviceInfo`.
pub const STATUS_CHAR_UUID: u128 = 0x00009954_0000_1000_8000_00805f9b34fb;

/// Writable characteristic that accepts `P2pInfo`.
pub const P2P_CHAR_UUID: u128 = 0x00009953_0000_1000_8000_00805f9b34fb;

/// `,"<key>":<value>` for a present optional field, nothing otherwise.
pub open spec fn opt_field(prefix: Seq<char>, value: Option<Seq<char>>) -> Seq<char> {
    match value {
        Some(v) => prefix + v,
        None => Seq::empty(),
    }
}

/// Maps an optional string to its JSON literal.
pub open spec fn opt_quoted(s: Option<String>) -> Option<Seq<char>> {
    match s {
        Some(v) => Some(json_quoted(v@)),
        None => None,
    }
}

/// Maps an optional integer to its JSON literal.
pub open spec fn opt_int(i: Option<i32>) -> Option<Seq<char>> {
    match i {
        Some(v) => Some(int_text(v as int)),
        None => None,
    }
}

/// The receiver's identity, served on the status characteristic.
#[derive(Debug, Clone, PartialEq)]
pub struct DeviceInfo {
    /// Always 0 here.
    pub state: i32,
    /// Base64 SubjectPublicKeyInfo of the receiver's ephemeral key.
    pub key: Option<String>,
    /// Upper-hex, colon-separated.
    pub mac: String,
    /// Protocol version, serialized as `catShare`.
    pub cat_share: Option<i32>,
}

/// The compact JSON of a `DeviceInfo`.
pub open spec fn device_info_json(d: DeviceInfo) -> Seq<char> {
    "{\"state\":"@ + int_text(d.state as int) + opt_field(",\"key\":"@, opt_quoted(d.key))
        + ",\"mac\":"@ + json_quoted(d.mac@) + opt_field(",\"catShare\":"@, opt_int(d.cat_share))
        + "}"@
}

fn push_opt_string(out: &mut Vec<char>, prefix: &str, v: &Option<String>)
    ensures
        final(out)@ == old(out)@ + opt_field(prefix@, opt_quoted(*v)),
{
    match v {
        Some(s) => {
            push_str(out, prefix);
            push_json_string(out, s.as_str());
            assert(final(out)@ =~= old(out)@ + opt_field(prefix@, opt_quoted(*v)));
        },
        None => {
            assert(final(out)@ =~= old(out)@ + opt_field(prefix@, opt_quoted(*v)));
        },
    }
}

fn push_opt_int(out: &mut Vec<char>, prefix: &str, v: Option<i32>)
    ensures
        final(out)@ == old(out)@ + opt_field(prefix@, opt_int(v)),
{
    match v {
        Some(i) => {
            push_str(out, prefix);
            push_int(out, i as i64);
            assert(final(out)@ =~= old(out)@ + opt_field(prefix@, opt_int(v)));
        },
        None => {
            assert(final(out)@ =~= old(out)@ + opt_field(prefix@, opt_int(v)));
        },
    }
}

impl DeviceInfo {
    /// State 0, the given key and MAC, protocol version 1.
    pub fn new(public_key: String, mac: String) -> (r: DeviceInfo)
        ensures
            r.state == 0,
            r.key == Some(public_key),
            r.mac == mac,
            r.cat_share == Some(1i32),
    {
        DeviceInfo { state: 0, key: Some(public_key), mac, cat_share: Some(1) }
    }

    /// The compact JSON text.
    pub fn to_json(&self) -> (r: String)
        ensures
            r@ == device_info_json(*self),
    {
        let mut out: Vec<char> = Vec::new();
        push_str(&mut out, "{\"state\":");
        push_int(&mut out, self.state as i64);
        push_opt_string(&mut out, ",\"key\":", &self.key);
        push_str(&mut out, ",\"mac\":");
        push_json_string(&mut out, self.mac.as_str());
        push_opt_int(&mut out, ",\"catShare\":", self.cat_share);
        push_str(&mut out, "}");
        assert(out@ =~= device_info_json(*self));
        string_of(&out)
    }
}

/// A present protocol version is written as `"catShare":<v>`.
proof fn lemma_device_info_cat_share(d: DeviceInfo, v: i32)
    requires
        d.cat_share == Some(v),
    ensures
        contains_seq(device_info_json(d), "\"catShare\":"@ + int_text(v as int)),
{
    reveal_strlit(",\"catShare\":");
    reveal_strlit("\"catShare\":");
    let pre = "{\"state\":"@ + int_text(d.state as int) + opt_field(",\"key\":"@, opt_quoted(d.key))
        + ",\"mac\":"@ + json_quoted(d.mac@);
    let pat = "\"catShare\":"@ + int_text(v as int);
    let s = device_info_json(d);
    assert(s =~= pre + seq![','] + pat + "}"@);
    let i: int = pre.len() as int + 1;
    assert(s.subrange(i, i + pat.len() as int) =~= pat);
}

/// The sender's Wi-Fi credentials and server port, written to the P2P
/// characteristic. When `key` is present, `ssid`, `psk` and `mac` hold
/// Base64 ciphertexts.
#[derive(Debug, Clone, PartialEq)]
pub struct P2pInfo {
    /// Sender id.
    pub id: Option<String>,
    pub ssid: String,
    pub psk: String,
    pub mac: String,
    pub port: i32,
    /// The sender's Base64 public key.
    pub key: Option<String>,
    /// Protocol version, serialized as `catShare`.
    pub cat_share: Option<i32>,
}

/// The compact JSON of a `P2pInfo`.
pub open spec fn p2p_info_json(p: P2pInfo) -> Seq<char> {
    let id_part: Seq<char> = match p.id {
        Some(v) => "\"id\":"@ + json_quoted(v@) + ","@,
        None => Seq::empty(),
    };
    "{"@ + id_part + "\"ssid\":"@ + json_quoted(p.ssid@) + ",\"psk\":"@ + json_quoted(p.psk@)
        + ",\"mac\":"@ + json_quoted(p.mac@) + ",\"port\":"@ + int_text(p.port as int) + opt_field(
        ",\"key\":"@,
        opt_quoted(p.key),
    ) + opt_field(",\"catShare\":"@, opt_int(p.cat_share)) + "}"@
}

/// The server URL for a host.
pub open spec fn server_url(host: Seq<char>, port: i32) -> Seq<char> {
    "https://"@ + host + ":"@ + int_text(port as int)
}

impl P2pInfo {
    /// Plaintext credentials: no id, no key, protocol version 1.
    pub fn new(ssid: String, psk: String, mac: String, port: i32) -> (r: P2pInfo)
        ensures
            r.id is None,
            r.ssid == ssid,
            r.psk == psk,
            r.mac == mac,
            r.port == port,
            r.key is None,
            r.cat_share == Some(1i32),
    {
        P2pInfo { id: None, ssid, psk, mac, port, key: None, cat_share: Some(1) }
    }

    /// Encrypted credentials with the sender id and the sender's public key.
    pub fn with_encryption(
        id: String,
        ssid_encrypted: String,
        psk_encrypted: String,
        mac_encrypted: String,
        port: i32,
        sender_public_key: String,
    ) -> (r: P2pInfo)
        ensures
            r.id == Some(id),
            r.ssid == ssid_encrypted,
            r.psk == psk_encrypted,
            r.mac == mac_encrypted,
            r.port == port,
            r.key == Some(sender_public_key),
            r.cat_share == Some(1i32),
    {
        P2pInfo {
            id: Some(id),
            ssid: ssid_encrypted,
            psk: psk_encrypted,
            mac: mac_encrypted,
            port,
            key: Some(sender_public_key),
            cat_share: Some(1),
        }
    }

    /// `https://<host>:<port>`.
    pub fn get_server_url(&self, host_ip: &str) -> (r: String)
        ensures
            r@ == server_url(host_ip@, self.port),
    {
        let mut out: Vec<char> = Vec::new();
        push_str(&mut out, "https://");
        push_str(&mut out, host_ip);
        push_str(&mut out, ":");
        push_int(&mut out, self.port as i64);
        string_of(&out)
    }

    /// The compact JSON text.
    pub fn to_json(&self) -> (r: String)
        ensures
            r@ == p2p_info_json(*self),
    {
        let mut out: Vec<char> = Vec::new();
        push_str(&mut out, "{");
        let ghost open_len = out@.len();
        match &self.id {
            Some(v) => {
                push_str(&mut out, "\"id\":");
                push_json_string(&mut out, v.as_str());
                push_str(&mut out, ",");
            },
            None => {},
        }
        push_str(&mut out, "\"ssid\":");
        push_json_string(&mut out, self.ssid.as_str());
        push_str(&mut out, ",\"psk\":");
        push_json_string(&mut out, self.psk.as_str());
        push_str(&mut out, ",\"mac\":");
        push_json_string(&mut out, self.mac.as_str());
        push_str(&mut out, ",\"port\":");
        push_int(&mut out, self.port as i64);
        push_opt_string(&mut out, ",\"key\":", &self.key);
        push_opt_int(&mut out, ",\"catShare\":", self.cat_share);
        push_str(&mut out, "}");
        assert(out@ =~= p2p_info_json(*self));
        string_of(&out)
    }
}

/// The `sendRequest` payload.
#[derive(Debug, Clone)]
pub struct SendRequest {
    pub task_id: Option<String>,
    /// Older peers send the task id under this name.
    pub id: Option<String>,
    pub sender_id: Option<String>,
    pub sender_name: String,
    pub file_name: String,
    pub mime_type: String,
    pub file_count: u32,
    pub total_size: u64,
    pub cat_share_text: Option<String>,
    pub thumbnail: Option<String>,
}

/// The effective task id: `taskId`, else `id`, else `unknown`.
pub open spec fn effective_task_id(task_id: Option<String>, id: Option<String>) -> Seq<char> {
    match task_id {
        Some(t) => t@,
        None => match id {
            Some(i) => i@,
            None => "unknown"@,
        },
    }
}

impl SendRequest {
    /// The effective task id.
    pub fn get_task_id(&self) -> (r: String)
        ensures
            r@ == effective_task_id(self.task_id, self.id),
    {
        match &self.task_id {
            Some(t) => t.clone(),
            None => match &self.id {
                Some(i) => i.clone(),
                None => String::from_str("unknown"),
            },
        }
    }

    /// The sender id, or `unknown`.
    pub fn get_sender_id(&self) -> (r: String)
        ensures
            r@ == match self.sender_id {
                Some(s) => s@,
                None => "unknown"@,
            },
    {
        match &self.sender_id {
            Some(s) => s.clone(),
            None => String::from_str("unknown"),
        }
    }
}

/// File metadata offered in a transfer negotiation.
#[derive(Debug, Clone)]
pub struct FileInfo {
    pub name: String,
    pub size: u64,
    pub modified_time: u64,
    pub mime_type: Option<String>,
}

/// One file of an outgoing transfer.
#[derive(Debug, Clone)]
pub struct FileEntry {
    pub path: String,
    pub name: String,
    pub size: u64,
    pub mime_type: String,
}

/// An outgoing transfer.
#[derive(Debug, Clone)]
pub struct TransferTask {
    pub task_id: String,
    pub files: Vec<FileEntry>,
    pub sender_id: String,
    pub sender_name: String,
}

/// The query of the download route.
#[derive(Debug, Clone)]
pub struct DownloadQuery {
    pub task_id: String,
}

} // verus!

verus! {

/// A MAC address as text: upper-case hex digits and colons.
pub open spec fn is_mac_text(s: Seq<char>) -> bool {
    forall|i: int| 0 <= i < s.len() ==> (('0' <= #[trigger] s[i] && s[i] <= '9') || ('A' <= s[i]
        && s[i] <= 'F') || s[i] == ':')
}

/// Base64 text: letters, digits, `+`, `/` and `=`.
pub open spec fn is_base64_chars(s: Seq<char>) -> bool {
    forall|i: int| 0 <= i < s.len() ==> (('0' <= #[trigger] s[i] && s[i] <= '9') || ('A' <= s[i]
        && s[i] <= 'Z') || ('a' <= s[i] && s[i] <= 'z') || s[i] == '+' || s[i] == '/' || s[i] == '=')
}

/// A character that JSON strings carry unescaped.
pub open spec fn is_plain_json_char(c: char) -> bool {
    (c as u32) >= 0x20 && c != '"' && c != '\\'
}

proof fn lemma_escape_plain(s: Seq<char>)
    requires
        forall|i: int| 0 <= i < s.len() ==> is_plain_json_char(#[trigger] s[i]),
    ensures
        crate::text::json_escape(s) == s,
    decreases s.len(),
{
    if s.len() > 0 {
        lemma_escape_plain(s.drop_last());
        assert(s.drop_last().push(s.last()) =~= s);
    }
}

proof fn lemma_int_text_chars(i: int)
    ensures
        forall|k: int| 0 <= k < int_text(i).len() ==> (('0' <= #[trigger] int_text(i)[k] && int_text(i)[k] <= '9') || int_text(i)[k] == '-'),
{
    if i < 0 {
        crate::protocol::lemma_decimal_digits((-i) as nat);
        let d = crate::text::decimal((-i) as nat);
        assert forall|k: int| 0 <= k < int_text(i).len() implies (('0' <= #[trigger] int_text(i)[k] && int_text(i)[k] <= '9') || int_text(i)[k] == '-') by {
            if k > 0 {
                assert(int_text(i)[k] == d[k - 1]);
                assert(crate::protocol::is_digit(d[k - 1]));
            }
        }
    } else {
        crate::protocol::lemma_decimal_digits(i as nat);
        let d = crate::text::decimal(i as nat);
        assert forall|k: int| 0 <= k < int_text(i).len() implies (('0' <= #[trigger] int_text(i)[k] && int_text(i)[k] <= '9') || int_text(i)[k] == '-') by {
            assert(crate::protocol::is_digit(d[k]));
        }
    }
}

/// If `c` occurs in neither part, it does not occur in the concatenation.
proof fn lemma_concat_avoids(a: Seq<char>, b: Seq<char>, c: char)
    requires
        !a.contains(c),
        !b.contains(c),
    ensures
        !(a + b).contains(c),
{
    assert forall|i: int| 0 <= i < (a + b).len() implies (a + b)[i] != c by {
        if i < a.len() {
            assert((a + b)[i] == a[i]);
        } else {
            assert((a + b)[i] == b[i - a.len()]);
        }
    }
}

/// A text in which `c` does not occur contains no pattern holding `c`.
proof fn lemma_avoids_pattern(s: Seq<char>, pat: Seq<char>, k: int, c: char)
    requires
        !s.contains(c),
        0 <= k < pat.len(),
        pat[k] == c,
    ensures
        !contains_seq(s, pat),
{
    assert forall|i: int| 0 <= i && i + pat.len() <= s.len() implies #[trigger] s.subrange(i, i + pat.len()) != pat by {
        assert(s.subrange(i, i + pat.len())[k] == s[i + k]);
    }
}

/// The JSON of a well-formed `DeviceInfo` holds neither `_` nor `c` for a
/// character `c` that is not in its field names, not a digit or `-`, and not
/// in its MAC or key text.
proof fn lemma_device_info_avoids(d: DeviceInfo, c: char)
    requires
        is_mac_text(d.mac@),
        d.key is Some ==> is_base64_chars(d.key->0@),
        c == '_' || (c == 'k' && d.key is None),
    ensures
        !device_info_json(d).contains(c),
{
    reveal_strlit("{\"state\":");
    reveal_strlit(",\"key\":");
    reveal_strlit(",\"mac\":");
    reveal_strlit(",\"catShare\":");
    reveal_strlit("}");
    lemma_int_text_chars(d.state as int);
    assert(!int_text(d.state as int).contains(c));
    let a = "{\"state\":"@ + int_text(d.state as int);
    lemma_concat_avoids("{\"state\":"@, int_text(d.state as int), c);
    let kp = opt_field(",\"key\":"@, opt_quoted(d.key));
    if d.key is Some {
        let k = d.key->0@;
        lemma_escape_plain(k);
        assert(!(seq!['"'] + k).contains(c)) by {
            lemma_concat_avoids(seq!['"'], k, c);
        }
        lemma_concat_avoids(seq!['"'] + k, seq!['"'], c);
        lemma_concat_avoids(",\"key\":"@, crate::text::json_quoted(k), c);
    } else {
        assert(kp =~= Seq::<char>::empty());
    }
    lemma_concat_avoids(a, kp, c);
    let m = d.mac@;
    lemma_escape_plain(m);
    lemma_concat_avoids(seq!['"'], m, c);
    lemma_concat_avoids(seq!['"'] + m, seq!['"'], c);
    lemma_concat_avoids(a + kp, ",\"mac\":"@, c);
    lemma_concat_avoids(a + kp + ",\"mac\":"@, crate::text::json_quoted(m), c);
    let cp = opt_field(",\"catShare\":"@, opt_int(d.cat_share));
    if d.cat_share is Some {
        let v = d.cat_share->0 as int;
        lemma_int_text_chars(v);
        assert(!int_text(v).contains(c));
        lemma_concat_avoids(",\"catShare\":"@, int_text(v), c);
    } else {
        assert(cp =~= Seq::<char>::empty());
    }
    lemma_concat_avoids(a + kp + ",\"mac\":"@ + crate::text::json_quoted(m), cp, c);
    lemma_concat_avoids(a + kp + ",\"mac\":"@ + crate::text::json_quoted(m) + cp, "}"@, c);
}

/// A well-formed `DeviceInfo` with a protocol version `v` serializes it as
/// `"catShare":v`, and never writes the field as `"cat_share"`.
pub proof fn lemma_device_info_camel_case(d: DeviceInfo, v: i32)
    requires
        d.cat_share == Some(v),
        is_mac_text(d.mac@),
        d.key is Some ==> is_base64_chars(d.key->0@),
    ensures
        contains_seq(device_info_json(d), "\"catShare\":"@ + int_text(v as int)),
        !contains_seq(device_info_json(d), "\"cat_share\""@),
{
    lemma_device_info_cat_share(d, v);
    lemma_device_info_avoids(d, '_');
    reveal_strlit("\"cat_share\"");
    lemma_avoids_pattern(device_info_json(d), "\"cat_share\""@, 4, '_');
}

/// A well-formed `DeviceInfo` without a key writes no `"key"`.
pub proof fn lemma_device_info_no_key(d: DeviceInfo)
    requires
        d.key is None,
        is_mac_text(d.mac@),
    ensures
        !contains_seq(device_info_json(d), "\"key\""@),
{
    lemma_device_info_avoids(d, 'k');
    reveal_strlit("\"key\"");
    lemma_avoids_pattern(device_info_json(d), "\"key\""@, 1, 'k');
}

} // verus!
