//! Session-level pieces of the two workflows: options, events, the
//! receiver's key pair and gateway derivation, and the transfer endpoints'
//! naming rules.
use vstd::prelude::*;
use crate::config::BrandId;
use crate::crypto::BleSecurity;
use crate::crypto::CryptoError;
use crate::messages::DeviceInfo;
use crate::messages::TransferTask;
use crate::text::chars_of;
use crate::text::decimal;
use crate::text::push_decimal;
use crate::text::push_str;
use crate::text::string_of;
use crate::text::same_text;

verus! {

/// A transfer offer as shown to the user.
#[derive(Debug, Clone)]
pub struct ReceiveRequest {
    pub sender_name: String,
    pub file_name: String,
    pub file_count: u32,
    pub total_size: u64,
}

/// Progress of a receive session.
#[derive(Debug, Clone)]
pub enum ReceiveEvent {
    Status(String),
    Request(ReceiveRequest),
    Progress { received: u64, total: u64 },
    /// Paths of the files written.
    Complete(Vec<String>),
    Error(String),
}

/// Progress of a send session.
#[derive(Debug, Clone)]
pub enum SendEvent {
    Status(String),
    Progress { sent: u64, total: u64 },
    Complete,
    Error(String),
}

/// Settings of a send session.
#[derive(Debug, Clone)]
pub struct SendOptions {
    pub wifi_interface: String,
    pub use_5ghz: bool,
    /// Name shown to the receiver.
    pub sender_name: String,
}

impl SendOptions {
    /// `wlan0`, 5 GHz, and the given sender name.
    pub fn with_name(sender_name: String) -> (r: Self)
        ensures
            r.wifi_interface@ == "wlan0"@,
            r.use_5ghz,
            r.sender_name == sender_name,
    {
        SendOptions { wifi_interface: String::from_str("wlan0"), use_5ghz: true, sender_name }
    }
}

/// Settings of a receive session.
#[derive(Debug, Clone)]
pub struct ReceiveOptions {
    /// Name shown in the advertisement.
    pub device_name: String,
    pub wifi_interface: String,
    /// Directory that received files are written to.
    pub output_dir: String,
    pub auto_accept: bool,
    pub brand_id: BrandId,
    pub supports_5ghz: bool,
}

impl ReceiveOptions {
    /// `wlan0`, no auto-accept, the Linux brand, 5 GHz, with the given name
    /// and output directory.
    pub fn with_defaults(device_name: String, output_dir: String) -> (r: Self)
        ensures
            r.device_name == device_name,
            r.output_dir == output_dir,
            r.wifi_interface@ == "wlan0"@,
            !r.auto_accept,
            r.brand_id == BrandId::Linux,
            r.supports_5ghz,
    {
        ReceiveOptions {
            device_name,
            wifi_interface: String::from_str("wlan0"),
            output_dir,
            auto_accept: false,
            brand_id: BrandId::Linux,
            supports_5ghz: true,
        }
    }
}

/// Number of occurrences of `c` in `s`.
pub open spec fn count_char(s: Seq<char>, c: char) -> nat
    decreases s.len(),
{
    if s.len() == 0 {
        0
    } else {
        count_char(s.drop_last(), c) + if s.last() == c { 1nat } else { 0nat }
    }
}

/// Index of the last `c` in `s`, or -1.
pub open spec fn last_index_of(s: Seq<char>, c: char) -> int
    decreases s.len(),
{
    if s.len() == 0 {
        -1
    } else if s.last() == c {
        s.len() - 1
    } else {
        last_index_of(s.drop_last(), c)
    }
}

/// The sender's address derived from the receiver's own IPv4 address
/// `a.b.c.d`: `a.b.c.1`; for text that is not four dot-separated parts,
/// `192.168.49.1`.
pub open spec fn gateway_ip_spec(local_ip: Seq<char>) -> Seq<char> {
    if count_char(local_ip, '.') == 3 {
        local_ip.subrange(0, last_index_of(local_ip, '.') + 1) + seq!['1']
    } else {
        "192.168.49.1"@
    }
}

/// The gateway address for a local IPv4 address (see [`gateway_ip_spec`]).
pub fn gateway_ip(local_ip: &str) -> (r: String)
    ensures
        r@ == gateway_ip_spec(local_ip@),
{
    let cs = chars_of(local_ip);
    let mut count: usize = 0;
    let mut last: usize = 0;
    let mut seen = false;
    let mut i: usize = 0;
    while i < cs.len()
        invariant
            cs@ == local_ip@,
            i <= cs@.len(),
            count as nat == count_char(cs@.subrange(0, i as int), '.'),
            count <= i,
            seen == (last_index_of(cs@.subrange(0, i as int), '.') >= 0),
            seen ==> last as int == last_index_of(cs@.subrange(0, i as int), '.'),
        decreases cs@.len() - i,
    {
        assert(cs@.subrange(0, i + 1).drop_last() =~= cs@.subrange(0, i as int));
        if cs[i] == '.' {
            count = count + 1;
            last = i;
            seen = true;
        }
        i = i + 1;
    }
    assert(cs@.subrange(0, i as int) =~= cs@);
    if count == 3 {
        proof {
            lemma_count_positive_has_last(cs@, '.');
        }
        let mut out: Vec<char> = Vec::new();
        let mut k: usize = 0;
        while k < cs.len() && k <= last
            invariant
                last < cs@.len(),
                k <= last + 1,
                out@ == cs@.subrange(0, k as int),
            decreases last + 1 - k,
        {
            out.push(cs[k]);
            k = k + 1;
            assert(out@ =~= cs@.subrange(0, k as int));
        }
        out.push('1');
        string_of(&out)
    } else {
        String::from_str("192.168.49.1")
    }
}

/// A string with a positive count of `c` has a last `c`.
proof fn lemma_count_positive_has_last(s: Seq<char>, c: char)
    ensures
        count_char(s, c) > 0 ==> 0 <= last_index_of(s, c) < s.len(),
    decreases s.len(),
{
    if s.len() > 0 {
        lemma_count_positive_has_last(s.drop_last(), c);
    }
}

/// The receiver's session: its options and its ephemeral key pair.
pub struct Receiver {
    options: ReceiveOptions,
    security: BleSecurity,
}

impl Receiver {
    /// A receiver with a fresh key pair.
    pub fn new(options: ReceiveOptions) -> (r: Result<Self, CryptoError>)
        ensures
            r is Ok,
            r->Ok_0.options_spec() == options,
            r->Ok_0.wf(),
    {
        let security = BleSecurity::new().unwrap();
        Ok(Receiver { options, security })
    }

    /// The session's options.
    pub closed spec fn options_spec(&self) -> ReceiveOptions {
        self.options
    }

    /// The session's options.
    pub fn options(&self) -> (r: &ReceiveOptions)
        ensures
            *r == self.options_spec(),
    {
        &self.options
    }

    /// The key pair is usable.
    pub closed spec fn wf(&self) -> bool {
        self.security.wf()
    }

    /// The Base64 public key advertised to senders.
    pub closed spec fn public_key_text(&self) -> Seq<char> {
        self.security.public_key_text()
    }

    /// The Base64 public key advertised to senders.
    pub fn public_key(&self) -> (r: &str)
        ensures
            r@ == self.public_key_text(),
    {
        self.security.get_public_key()
    }

    /// The identity served to senders for a local MAC address.
    pub fn device_info(&self, mac: String) -> (r: DeviceInfo)
        ensures
            r.state == 0,
            r.key is Some && r.key->0@ == self.public_key_text(),
            r.mac == mac,
            r.cat_share == Some(1i32),
    {
        DeviceInfo::new(String::from_str(self.security.get_public_key()), mac)
    }

    /// Gives up the key pair, for the one agreement it serves.
    pub fn into_security(self) -> (r: BleSecurity)
        requires
            self.wf(),
        ensures
            r.wf(),
            r.public_key_text() == self.public_key_text(),
    {
        self.security
    }

    /// The sender's address for a local IPv4 address.
    pub fn get_gateway_ip(&self, local_ip: &str) -> (r: String)
        ensures
            r@ == gateway_ip_spec(local_ip@),
    {
        gateway_ip(local_ip)
    }
}

/// The receiver's side of the transfer endpoints.
pub struct ReceiverClient {
    pub host: String,
    pub port: u16,
    pub output_dir: String,
}

/// `wss://<host>:<port>/websocket`.
pub open spec fn websocket_url_spec(host: Seq<char>, port: u16) -> Seq<char> {
    "wss://"@ + host + ":"@ + decimal(port as nat) + "/websocket"@
}

/// `https://<host>:<port>/download?taskId=<task>`.
pub open spec fn download_url_spec(host: Seq<char>, port: u16, task_id: Seq<char>) -> Seq<char> {
    "https://"@ + host + ":"@ + decimal(port as nat) + "/download?taskId="@ + task_id
}

impl ReceiverClient {
    pub fn new(host: &str, port: u16, output_dir: String) -> (r: Self)
        ensures
            r.host@ == host@,
            r.port == port,
            r.output_dir == output_dir,
    {
        ReceiverClient { host: String::from_str(host), port, output_dir }
    }

    /// The control channel URL.
    pub fn websocket_url(&self) -> (r: String)
        ensures
            r@ == websocket_url_spec(self.host@, self.port),
    {
        let mut out: Vec<char> = Vec::new();
        push_str(&mut out, "wss://");
        push_str(&mut out, self.host.as_str());
        push_str(&mut out, ":");
        push_decimal(&mut out, self.port as u64);
        push_str(&mut out, "/websocket");
        string_of(&out)
    }

    /// The download URL for an accepted task.
    pub fn download_url(&self, task_id: &str) -> (r: String)
        ensures
            r@ == download_url_spec(self.host@, self.port, task_id@),
    {
        let mut out: Vec<char> = Vec::new();
        push_str(&mut out, "https://");
        push_str(&mut out, self.host.as_str());
        push_str(&mut out, ":");
        push_decimal(&mut out, self.port as u64);
        push_str(&mut out, "/download?taskId=");
        push_str(&mut out, task_id);
        string_of(&out)
    }
}

/// A control-channel client for a URL.
pub struct WsClient {
    pub url: String,
}

impl WsClient {
    pub fn new(url: &str) -> (r: Self)
        ensures
            r.url@ == url@,
    {
        WsClient { url: String::from_str(url) }
    }
}

/// The archive entry name of the file at `index`: `<index>/<name>`.
pub open spec fn zip_entry_name_spec(index: usize, name: Seq<char>) -> Seq<char> {
    decimal(index as nat) + seq!['/'] + name
}

/// The archive entry name of the file at `index`.
pub fn zip_entry_name(index: usize, name: &str) -> (r: String)
    ensures
        r@ == zip_entry_name_spec(index, name@),
{
    let mut out: Vec<char> = Vec::new();
    push_decimal(&mut out, index as u64);
    out.push('/');
    push_str(&mut out, name);
    assert(out@ =~= zip_entry_name_spec(index, name@));
    string_of(&out)
}

/// The part of an entry name after its last `/`.
pub open spec fn base_name_spec(name: Seq<char>) -> Seq<char> {
    name.subrange(last_index_of(name, '/') + 1, name.len() as int)
}

/// The file name an archive entry is extracted to.
pub fn base_name(name: &str) -> (r: String)
    ensures
        r@ == base_name_spec(name@),
{
    let cs = chars_of(name);
    let mut start: usize = 0;
    let mut i: usize = 0;
    while i < cs.len()
        invariant
            cs@ == name@,
            i <= cs@.len(),
            start as int == last_index_of(cs@.subrange(0, i as int), '/') + 1,
        decreases cs@.len() - i,
    {
        assert(cs@.subrange(0, i + 1).drop_last() =~= cs@.subrange(0, i as int));
        if cs[i] == '/' {
            start = i + 1;
        }
        i = i + 1;
    }
    assert(cs@.subrange(0, i as int) =~= cs@);
    proof {
        lemma_last_index_bounds(cs@, '/');
    }
    let mut out: Vec<char> = Vec::new();
    let mut k: usize = start;
    while k < cs.len()
        invariant
            start <= k <= cs@.len(),
            out@ == cs@.subrange(start as int, k as int),
        decreases cs@.len() - k,
    {
        out.push(cs[k]);
        k = k + 1;
        assert(out@ =~= cs@.subrange(start as int, k as int));
    }
    string_of(&out)
}

/// The last index is -1 or a valid index.
proof fn lemma_last_index_bounds(s: Seq<char>, c: char)
    ensures
        -1 <= last_index_of(s, c) < s.len(),
    decreases s.len(),
{
    if s.len() > 0 {
        lemma_last_index_bounds(s.drop_last(), c);
    }
}

impl TransferTask {
    /// Whether a download request names the task.
    pub fn matches_download(&self, query_task_id: &str) -> (r: bool)
        ensures
            r == (self.task_id@ == query_task_id@),
    {
        same_text(self.task_id.as_str(), query_task_id)
    }

    /// The HTTP status for a download request: 200 when it names the task, else 404.
    pub fn download_status(&self, query_task_id: &str) -> (r: u16)
        ensures
            r == (if self.task_id@ == query_task_id@ { 200u16 } else { 404u16 }),
    {
        if self.matches_download(query_task_id) { 200 } else { 404 }
    }
}

} // verus!

verus! {

/// The first `taskId=` parameter among query pieces from index `i` on.
pub open spec fn task_param_from(params: Seq<Seq<char>>, i: int) -> Option<Seq<char>>
    decreases params.len() - i,
{
    if i < 0 || i >= params.len() {
        None
    } else if params[i].len() >= 7 && params[i].subrange(0, 7) == "taskId="@ {
        Some(params[i].subrange(7, params[i].len() as int))
    } else {
        task_param_from(params, i + 1)
    }
}

/// The task a download request line asks for: the line starts with
/// `GET /download?`, the query runs to the next space, and the value of its
/// first `taskId` parameter is taken as it stands.
pub open spec fn download_task_spec(line: Seq<char>) -> Option<Seq<char>> {
    let prefix = "GET /download?"@;
    if line.len() >= prefix.len() && line.subrange(0, prefix.len() as int) == prefix {
        let rest = line.subrange(prefix.len() as int, line.len() as int);
        let query = rest.subrange(0, crate::protocol::index_of_from(rest, ' ', 0));
        task_param_from(crate::netinfo::split_on(query, false, '&'), 0)
    } else {
        None
    }
}

/// The task a download request line asks for (see [`download_task_spec`]).
pub fn download_task_id(request_line: &str) -> (r: Option<String>)
    ensures
        r is Some == download_task_spec(request_line@) is Some,
        r is Some ==> r->0@ == download_task_spec(request_line@)->0,
{
    let s = chars_of(request_line);
    let prefix = chars_of("GET /download?");
    proof {
        reveal_strlit("GET /download?");
        reveal_strlit("taskId=");
    }
    let n: usize = prefix.len();
    if s.len() < n {
        return None;
    }
    let head = crate::text::slice_chars(&s, 0, n);
    if !crate::text::same_text(string_of(&head).as_str(), "GET /download?") {
        return None;
    }
    let rest = crate::text::slice_chars(&s, n, s.len());
    let mut e: usize = 0;
    while e < rest.len() && rest[e] != ' '
        invariant
            e <= rest@.len(),
            crate::protocol::index_of_from(rest@, ' ', e as int) == crate::protocol::index_of_from(rest@, ' ', 0),
        decreases rest@.len() - e,
    {
        e = e + 1;
    }
    let query = crate::text::slice_chars(&rest, 0, e);
    let params = crate::netinfo::split_pieces(&query, '&');
    let ghost ps = crate::netinfo::pieces_view(params@);
    assert(rest@ == request_line@.subrange(14, request_line@.len() as int));
    assert(download_task_spec(request_line@) == task_param_from(ps, 0));
    let mut i: usize = 0;
    while i < params.len()
        invariant
            ps == crate::netinfo::pieces_view(params@),
            download_task_spec(request_line@) == task_param_from(ps, 0),
            i <= params@.len(),
            task_param_from(ps, i as int) == task_param_from(ps, 0),
        decreases params@.len() - i,
    {
        let p = &params[i];
        assert(ps[i as int] == p@);
        if p.len() >= 7 {
            let k = crate::text::slice_chars(p, 0, 7);
            if crate::text::same_text(string_of(&k).as_str(), "taskId=") {
                let v = crate::text::slice_chars(p, 7, p.len());
                return Some(string_of(&v));
            }
        }
        i = i + 1;
    }
    None
}

} // verus!

verus! {

/// How long the sender waits for a transfer to end.
pub const TRANSFER_DEADLINE_MS: u64 = 300_000;

/// What the sender's transfer server reports.
#[derive(Debug, Clone, PartialEq, Eq)]
pub enum TransferStatus {
    Pending,
    Accepted,
    Progress { sent: u64, total: u64 },
    Completed,
    Rejected(String),
    Failed(String),
}

/// What the sender's caller does after a report.
#[derive(Debug, Clone)]
pub enum SendStep {
    /// Hand this event on; the transfer goes on.
    Emit(SendEvent),
    /// Hand this event on, tear the Wi-Fi group down: the transfer is over.
    EmitAndStopGroup(SendEvent),
    /// Nothing to do.
    Nothing,
}

/// The error text for a refusal.
pub open spec fn rejected_text(reason: Seq<char>) -> Seq<char> {
    "Rejected by receiver: "@ + reason
}

/// The error text for a failure.
pub open spec fn failed_text(error: Seq<char>) -> Seq<char> {
    "Transfer failed: "@ + error
}

/// The sender's session decisions: which reports end the transfer, the
/// five-minute deadline, and whether the Wi-Fi group is up to tear down.
pub struct SendSession {
    /// The Wi-Fi group is up.
    pub group_up: bool,
    /// The transfer has ended.
    pub finished: bool,
}

fn error_event(prefix: &str, detail: &str) -> (r: SendEvent)
    ensures
        r is Error && r->Error_0@ == prefix@ + detail@,
{
    let mut out: Vec<char> = Vec::new();
    crate::text::push_str(&mut out, prefix);
    crate::text::push_str(&mut out, detail);
    SendEvent::Error(string_of(&out))
}

impl SendSession {
    /// A session with no group up yet.
    pub fn new() -> (r: Self)
        ensures
            !r.group_up,
            !r.finished,
    {
        SendSession { group_up: false, finished: false }
    }

    /// The Wi-Fi group came up.
    pub fn on_group_up(&mut self)
        ensures
            final(self).group_up,
            final(self).finished == old(self).finished,
    {
        self.group_up = true;
    }

    /// Decides on a report at `elapsed_ms` since the transfer started. Past
    /// the deadline the transfer ends with a timeout error; completion,
    /// refusal and failure end it with their event; progress is handed on;
    /// pending and accepted need nothing. Ending always tears the group down.
    pub fn on_status(&mut self, status: TransferStatus, elapsed_ms: u64) -> (r: SendStep)
        ensures
            old(self).finished ==> (r is Nothing && *final(self) == *old(self)),
            !old(self).finished && elapsed_ms >= TRANSFER_DEADLINE_MS ==> ({
                &&& r is EmitAndStopGroup
                &&& r->EmitAndStopGroup_0 is Error
                &&& r->EmitAndStopGroup_0->Error_0@ == "Transfer timed out"@
                &&& final(self).finished
                &&& !final(self).group_up
            }),
            !old(self).finished && elapsed_ms < TRANSFER_DEADLINE_MS ==> match status {
                TransferStatus::Completed => {
                    &&& r is EmitAndStopGroup
                    &&& r->EmitAndStopGroup_0 is Complete
                    &&& final(self).finished
                    &&& !final(self).group_up
                },
                TransferStatus::Rejected(reason) => {
                    &&& r is EmitAndStopGroup
                    &&& r->EmitAndStopGroup_0 is Error
                    &&& r->EmitAndStopGroup_0->Error_0@ == rejected_text(reason@)
                    &&& final(self).finished
                    &&& !final(self).group_up
                },
                TransferStatus::Failed(error) => {
                    &&& r is EmitAndStopGroup
                    &&& r->EmitAndStopGroup_0 is Error
                    &&& r->EmitAndStopGroup_0->Error_0@ == failed_text(error@)
                    &&& final(self).finished
                    &&& !final(self).group_up
                },
                TransferStatus::Progress { sent, total } => {
                    &&& r is Emit
                    &&& r->Emit_0 == SendEvent::Progress { sent, total }
                    &&& *final(self) == *old(self)
                },
                _ => r is Nothing && *final(self) == *old(self),
            },
    {
        if self.finished {
            return SendStep::Nothing;
        }
        if elapsed_ms >= TRANSFER_DEADLINE_MS {
            self.finished = true;
            self.group_up = false;
            return SendStep::EmitAndStopGroup(SendEvent::Error(String::from_str("Transfer timed out")));
        }
        match status {
            TransferStatus::Completed => {
                self.finished = true;
                self.group_up = false;
                SendStep::EmitAndStopGroup(SendEvent::Complete)
            },
            TransferStatus::Rejected(reason) => {
                self.finished = true;
                self.group_up = false;
                SendStep::EmitAndStopGroup(error_event("Rejected by receiver: ", reason.as_str()))
            },
            TransferStatus::Failed(error) => {
                self.finished = true;
                self.group_up = false;
                SendStep::EmitAndStopGroup(error_event("Transfer failed: ", error.as_str()))
            },
            TransferStatus::Progress { sent, total } => SendStep::Emit(SendEvent::Progress { sent, total }),
            _ => SendStep::Nothing,
        }
    }

    /// A setup step (server, group, handshake) failed: the transfer ends, and
    /// the group is to be torn down exactly when it is up.
    pub fn on_step_failed(&mut self) -> (stop: bool)
        ensures
            stop == old(self).group_up,
            final(self).finished,
            !final(self).group_up,
    {
        let stop = self.group_up;
        self.group_up = false;
        self.finished = true;
        stop
    }
}

} // verus!
