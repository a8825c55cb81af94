//! The receiver's side of the control channel as a state machine: each
//! incoming frame, decision or transport event moves the session and says
//! what frame, if any, to send back.
use vstd::prelude::*;
use crate::messages::effective_task_id;
use crate::messages::SendRequest;
use crate::protocol::frame_text;
use crate::protocol::parse_frame;
use crate::protocol::status_payload;
use crate::protocol::MessageModel;
use crate::protocol::WsMessage;

verus! {

/// Where the receiver's control session stands.
#[derive(Debug, Clone, Copy, PartialEq, Eq, Structural)]
pub enum ControlState {
    AwaitVersionNegotiation,
    AwaitSendRequest,
    Downloading,
    Completed,
    Rejected,
    Failed,
}

/// What the caller should do after a frame arrives.
#[derive(Debug, Clone)]
pub enum ControlAction {
    /// Send this frame.
    Send(String),
    /// Decode this `sendRequest` payload, ask the receive policy, and report
    /// back through [`ReceiverSession::on_decision`].
    Decide { msg_id: u32, payload: String },
    /// Nothing to send.
    Nothing,
}

/// Whether a state ends the session.
pub open spec fn is_terminal(s: ControlState) -> bool {
    s == ControlState::Completed || s == ControlState::Rejected || s == ControlState::Failed
}

/// Whether a state still waits for the send request.
pub open spec fn awaits_request(s: ControlState) -> bool {
    s == ControlState::AwaitVersionNegotiation || s == ControlState::AwaitSendRequest
}

/// The payload acknowledging version negotiation.
pub open spec fn version_ack_payload() -> Seq<char> {
    "{\"version\":1,\"threadLimit\":5}"@
}

/// The next self-assigned message id.
pub open spec fn next_id(i: u32) -> u32 {
    if i < u32::MAX { (i + 1) as u32 } else { i }
}

/// The text of an `ack` frame.
pub open spec fn ack_text(id: u32, name: Seq<char>, payload: Option<Seq<char>>) -> Seq<char> {
    frame_text(MessageModel { kind: "ack"@, id, name, payload })
}

/// The text of a `status` frame.
pub open spec fn status_text(id: u32, task_id: Seq<char>, status_type: int, reason: Seq<char>) -> Seq<char> {
    frame_text(
        MessageModel {
            kind: "action"@,
            id,
            name: "status"@,
            payload: Some(status_payload(task_id, status_type, reason)),
        },
    )
}

/// The receiver's control session.
pub struct ReceiverSession {
    pub state: ControlState,
    /// Id of the last frame this side initiated.
    pub my_id: u32,
    /// The accepted task.
    pub task_id: Option<String>,
    /// Total size announced by the accepted request.
    pub total_size: u64,
}

impl ReceiverSession {
    /// A session waiting for version negotiation.
    pub fn new() -> (r: Self)
        ensures
            r.state == ControlState::AwaitVersionNegotiation,
            r.my_id == 0,
            r.task_id is None,
            r.total_size == 0,
    {
        ReceiverSession {
            state: ControlState::AwaitVersionNegotiation,
            my_id: 0,
            task_id: None,
            total_size: 0,
        }
    }

    /// Handles one incoming text frame. Frames that do not parse, `ack`
    /// frames, and anything after the session ended are ignored. Version
    /// negotiation is acknowledged with version 1 and a thread limit of 5; a
    /// send request with a payload is handed to the caller while the request
    /// is awaited; any other action is acknowledged with no payload.
    pub fn on_text(&mut self, text: &str) -> (r: ControlAction)
        ensures
            final(self).my_id == old(self).my_id,
            final(self).task_id == old(self).task_id,
            final(self).total_size == old(self).total_size,
            (is_terminal(old(self).state) || parse_frame(text@) is None || parse_frame(text@)->0.kind
                != "action"@) ==> (r is Nothing && final(self).state == old(self).state),
            ({
                let m = parse_frame(text@)->0;
                (!is_terminal(old(self).state) && parse_frame(text@) is Some && m.kind == "action"@)
                    ==> if m.name == "versionNegotiation"@ {
                    &&& r is Send
                    &&& r->Send_0@ == ack_text(m.id, m.name, Some(version_ack_payload()))
                    &&& final(self).state == (if old(self).state
                        == ControlState::AwaitVersionNegotiation {
                        ControlState::AwaitSendRequest
                    } else {
                        old(self).state
                    })
                } else if m.name == "sendRequest"@ && awaits_request(old(self).state) {
                    &&& final(self).state == old(self).state
                    &&& if m.payload is Some {
                        r is Decide && r->msg_id == m.id && r->payload@ == m.payload->0
                    } else {
                        r is Nothing
                    }
                } else {
                    &&& r is Send
                    &&& r->Send_0@ == ack_text(m.id, m.name, None)
                    &&& final(self).state == old(self).state
                }
            }),
    {
        if self.state == ControlState::Completed || self.state == ControlState::Rejected
            || self.state == ControlState::Failed {
            return ControlAction::Nothing;
        }
        let msg = match WsMessage::parse(text) {
            Some(m) => m,
            None => {
                return ControlAction::Nothing;
            },
        };
        proof {
            reveal_strlit("action");
            reveal_strlit("versionNegotiation");
            reveal_strlit("sendRequest");
        }
        if !crate::text::same_text(msg.msg_type.as_str(), "action") {
            return ControlAction::Nothing;
        }
        if crate::text::same_text(msg.name.as_str(), "versionNegotiation") {
            if self.state == ControlState::AwaitVersionNegotiation {
                self.state = ControlState::AwaitSendRequest;
            }
            let ack = WsMessage::ack(
                msg.id,
                "versionNegotiation",
                Some(String::from_str("{\"version\":1,\"threadLimit\":5}")),
            );
            return ControlAction::Send(ack.to_string());
        }
        if crate::text::same_text(msg.name.as_str(), "sendRequest") && (self.state
            == ControlState::AwaitVersionNegotiation || self.state
            == ControlState::AwaitSendRequest) {
            return match msg.payload {
                Some(p) => ControlAction::Decide { msg_id: msg.id, payload: p },
                None => ControlAction::Nothing,
            };
        }
        let ack = WsMessage::ack(msg.id, msg.name.as_str(), None);
        ControlAction::Send(ack.to_string())
    }

    /// Reports the receive policy's answer to a send request. Accepting
    /// acknowledges the request and starts the download; refusing sends a
    /// status of type 3 (`user refuse`) under the next own id and ends the
    /// session. Outside the awaiting states nothing happens.
    pub fn on_decision(&mut self, msg_id: u32, request: &SendRequest, accepted: bool) -> (r: Option<
        String,
    >)
        ensures
            !awaits_request(old(self).state) ==> (r is None && *final(self) == *old(self)),
            awaits_request(old(self).state) && accepted ==> ({
                &&& r is Some
                &&& r->0@ == ack_text(msg_id, "sendRequest"@, None)
                &&& final(self).state == ControlState::Downloading
                &&& final(self).task_id is Some
                &&& final(self).task_id->0@ == effective_task_id(request.task_id, request.id)
                &&& final(self).total_size == request.total_size
                &&& final(self).my_id == old(self).my_id
            }),
            awaits_request(old(self).state) && !accepted ==> ({
                &&& r is Some
                &&& r->0@ == status_text(
                    next_id(old(self).my_id),
                    effective_task_id(request.task_id, request.id),
                    3,
                    "user refuse"@,
                )
                &&& final(self).state == ControlState::Rejected
                &&& final(self).my_id == next_id(old(self).my_id)
                &&& final(self).task_id == old(self).task_id
                &&& final(self).total_size == old(self).total_size
            }),
    {
        if !(self.state == ControlState::AwaitVersionNegotiation || self.state
            == ControlState::AwaitSendRequest) {
            return None;
        }
        let task_id = request.get_task_id();
        if accepted {
            self.state = ControlState::Downloading;
            self.task_id = Some(task_id);
            self.total_size = request.total_size;
            Some(WsMessage::ack(msg_id, "sendRequest", None).to_string())
        } else {
            if self.my_id < u32::MAX {
                self.my_id = self.my_id + 1;
            }
            self.state = ControlState::Rejected;
            Some(WsMessage::status(self.my_id, task_id.as_str(), 3, "user refuse").to_string())
        }
    }

    /// A `sendRequest` payload that could not be decoded ends the session as
    /// failed.
    pub fn on_bad_request(&mut self)
        ensures
            final(self).state == (if is_terminal(old(self).state) {
                old(self).state
            } else {
                ControlState::Failed
            }),
            final(self).my_id == old(self).my_id,
            final(self).task_id == old(self).task_id,
            final(self).total_size == old(self).total_size,
    {
        if !(self.state == ControlState::Completed || self.state == ControlState::Rejected
            || self.state == ControlState::Failed) {
            self.state = ControlState::Failed;
        }
    }

    /// The download finished: report status type 1 (`ok`) under the next own
    /// id and complete. Outside the download nothing happens.
    pub fn on_download_complete(&mut self) -> (r: Option<String>)
        ensures
            old(self).state != ControlState::Downloading ==> (r is None && *final(self) == *old(
                self,
            )),
            old(self).state == ControlState::Downloading ==> ({
                &&& r is Some
                &&& r->0@ == status_text(
                    next_id(old(self).my_id),
                    match old(self).task_id {
                        Some(t) => t@,
                        None => "unknown"@,
                    },
                    1,
                    "ok"@,
                )
                &&& final(self).state == ControlState::Completed
                &&& final(self).my_id == next_id(old(self).my_id)
                &&& final(self).task_id == old(self).task_id
            }),
    {
        if self.state != ControlState::Downloading {
            return None;
        }
        if self.my_id < u32::MAX {
            self.my_id = self.my_id + 1;
        }
        self.state = ControlState::Completed;
        let frame = match &self.task_id {
            Some(t) => WsMessage::status(self.my_id, t.as_str(), 1, "ok").to_string(),
            None => WsMessage::status(self.my_id, "unknown", 1, "ok").to_string(),
        };
        Some(frame)
    }

    /// The socket failed or closed: an unfinished session fails.
    pub fn on_closed(&mut self)
        ensures
            final(self).state == (if is_terminal(old(self).state) {
                old(self).state
            } else {
                ControlState::Failed
            }),
            final(self).my_id == old(self).my_id,
            final(self).task_id == old(self).task_id,
            final(self).total_size == old(self).total_size,
    {
        self.on_bad_request();
    }

    /// Whether the session has ended.
    pub fn is_finished(&self) -> (r: bool)
        ensures
            r == is_terminal(self.state),
    {
        self.state == ControlState::Completed || self.state == ControlState::Rejected
            || self.state == ControlState::Failed
    }
}

} // verus!

verus! {

/// The integer under `key` in JSON object text, if any.
pub uninterp spec fn json_int_field(text: Seq<char>, key: Seq<char>) -> Option<i64>;

/// The string under `key` in JSON object text, if any.
pub uninterp spec fn json_str_field(text: Seq<char>, key: Seq<char>) -> Option<Seq<char>>;

/// Relies on `serde_json::from_str::<serde_json::Value>`, `Value::get` and
/// `Value::as_i64`: the integer under a key of a JSON object.
#[verifier::external_body]
fn json_get_i64(text: &str, key: &str) -> (r: Option<i64>)
    ensures
        r == json_int_field(text@, key@),
{
    match serde_json::from_str::<serde_json::Value>(text) {
        Ok(v) => match v.get(key) {
            Some(f) => f.as_i64(),
            None => None,
        },
        Err(_) => None,
    }
}

/// Relies on `serde_json::from_str::<serde_json::Value>`, `Value::get` and
/// `Value::as_str`: the string under a key of a JSON object.
#[verifier::external_body]
fn json_get_str(text: &str, key: &str) -> (r: Option<String>)
    ensures
        r is Some == json_str_field(text@, key@) is Some,
        r is Some ==> r->0@ == json_str_field(text@, key@)->0,
{
    match serde_json::from_str::<serde_json::Value>(text) {
        Ok(v) => match v.get(key) {
            Some(f) => match f.as_str() {
                Some(s) => Some(s.to_string()),
                None => None,
            },
            None => None,
        },
        Err(_) => None,
    }
}

/// Where the sender's control session stands.
#[derive(Debug, Clone, PartialEq, Eq)]
pub enum SenderState {
    /// Version negotiation sent; waiting for its acknowledgement.
    AwaitVersionAck,
    /// Send request sent; waiting for the receiver's status.
    AwaitStatus,
    Completed,
    /// Refused by the receiver, with its reason.
    Rejected(String),
    Failed,
}

/// Sum of the file sizes of a task.
pub open spec fn files_total(files: Seq<crate::messages::FileEntry>) -> int
    decreases files.len(),
{
    if files.len() == 0 {
        0
    } else {
        files_total(files.drop_last()) + files.last().size
    }
}

/// The `sendRequest` payload announcing a task.
pub open spec fn send_request_payload(task: crate::messages::TransferTask) -> Seq<char> {
    let files = task.files@;
    "{\"taskId\":"@ + crate::text::json_quoted(task.task_id@) + ",\"id\":"@
        + crate::text::json_quoted(task.task_id@) + ",\"senderId\":"@ + crate::text::json_quoted(
        task.sender_id@,
    ) + ",\"senderName\":"@ + crate::text::json_quoted(task.sender_name@) + ",\"fileName\":"@
        + crate::text::json_quoted(if files.len() > 0 { files[0].name@ } else { Seq::empty() })
        + ",\"mimeType\":"@ + crate::text::json_quoted(
        if files.len() > 0 { files[0].mime_type@ } else { "application/octet-stream"@ },
    ) + ",\"fileCount\":"@ + crate::text::decimal(files.len()) + ",\"totalSize\":"@
        + crate::text::decimal(files_total(files) as nat) + "}"@
}

/// Builds the `sendRequest` payload for a task.
pub fn send_request_json(task: &crate::messages::TransferTask) -> (r: String)
    requires
        files_total(task.files@) <= u64::MAX,
    ensures
        r@ == send_request_payload(*task),
{
    let mut total: u64 = 0;
    let mut i: usize = 0;
    while i < task.files.len()
        invariant
            i <= task.files@.len(),
            files_total(task.files@) <= u64::MAX,
            total as int == files_total(task.files@.subrange(0, i as int)),
        decreases task.files@.len() - i,
    {
        proof {
            assert(task.files@.subrange(0, i + 1).drop_last() =~= task.files@.subrange(0, i as int));
            lemma_files_total_prefix(task.files@, i + 1);
        }
        total = total + task.files[i].size;
        i = i + 1;
    }
    assert(task.files@.subrange(0, i as int) =~= task.files@);
    let mut out: Vec<char> = Vec::new();
    crate::text::push_str(&mut out, "{\"taskId\":");
    crate::text::push_json_string(&mut out, task.task_id.as_str());
    crate::text::push_str(&mut out, ",\"id\":");
    crate::text::push_json_string(&mut out, task.task_id.as_str());
    crate::text::push_str(&mut out, ",\"senderId\":");
    crate::text::push_json_string(&mut out, task.sender_id.as_str());
    crate::text::push_str(&mut out, ",\"senderName\":");
    crate::text::push_json_string(&mut out, task.sender_name.as_str());
    crate::text::push_str(&mut out, ",\"fileName\":");
    if task.files.len() > 0 {
        crate::text::push_json_string(&mut out, task.files[0].name.as_str());
    } else {
        crate::text::push_json_string(&mut out, "");
    }
    crate::text::push_str(&mut out, ",\"mimeType\":");
    if task.files.len() > 0 {
        crate::text::push_json_string(&mut out, task.files[0].mime_type.as_str());
    } else {
        crate::text::push_json_string(&mut out, "application/octet-stream");
    }
    crate::text::push_str(&mut out, ",\"fileCount\":");
    crate::text::push_decimal(&mut out, task.files.len() as u64);
    crate::text::push_str(&mut out, ",\"totalSize\":");
    crate::text::push_decimal(&mut out, total);
    crate::text::push_str(&mut out, "}");
    proof {
        reveal_strlit("");
    }
    assert(out@ =~= send_request_payload(*task));
    crate::text::string_of(&out)
}

/// A prefix of the files never sums to more than all of them.
proof fn lemma_files_total_prefix(files: Seq<crate::messages::FileEntry>, k: int)
    requires
        0 <= k <= files.len(),
    ensures
        files_total(files.subrange(0, k)) <= files_total(files),
    decreases files.len() - k,
{
    if k < files.len() {
        lemma_files_total_prefix(files, k + 1);
        assert(files.subrange(0, k + 1).drop_last() =~= files.subrange(0, k));
    } else {
        assert(files.subrange(0, k) =~= files);
    }
}

/// The sender's control session.
pub struct SenderSession {
    pub state: SenderState,
    /// Id of the last frame this side initiated.
    pub msg_id: u32,
}

impl SenderSession {
    /// Opens the session: the version negotiation frame to send first.
    pub fn start() -> (r: (Self, String))
        ensures
            r.0.state == SenderState::AwaitVersionAck,
            r.0.msg_id == 0,
            r.1@ == frame_text(
                MessageModel {
                    kind: "action"@,
                    id: 0,
                    name: "versionNegotiation"@,
                    payload: Some("{\"version\":1,\"versions\":[1]}"@),
                },
            ),
    {
        let frame = WsMessage::version_negotiation(0).to_string();
        (SenderSession { state: SenderState::AwaitVersionAck, msg_id: 0 }, frame)
    }

    /// Whether the session has ended.
    pub fn is_finished(&self) -> (r: bool)
        ensures
            r == (self.state is Completed || self.state is Rejected || self.state is Failed),
    {
        match self.state {
            SenderState::Completed | SenderState::Rejected(_) | SenderState::Failed => true,
            _ => false,
        }
    }

    /// Handles one incoming frame; returns the frames to send, in order.
    /// The acknowledgement of version negotiation is answered with the send
    /// request under the next own id. Every action is acknowledged; a status
    /// of type 1 completes the session, of type 3 rejects it with the given
    /// reason (`rejected` when none). Frames that do not parse, and anything
    /// after the session ended, are ignored.
    pub fn on_text(&mut self, text: &str, task: &crate::messages::TransferTask) -> (r: Vec<String>)
        requires
            files_total(task.files@) <= u64::MAX,
        ensures
            ({
                let m = parse_frame(text@)->0;
                if old(self).state is Completed || old(self).state is Rejected || old(self).state is Failed
                    || parse_frame(text@) is None {
                    r@.len() == 0 && *final(self) == *old(self)
                } else if m.kind == "ack"@ {
                    if m.name == "versionNegotiation"@ && old(self).state is AwaitVersionAck {
                        &&& r@.len() == 1
                        &&& r@[0]@ == frame_text(
                            MessageModel {
                                kind: "action"@,
                                id: next_id(old(self).msg_id),
                                name: "sendRequest"@,
                                payload: Some(send_request_payload(*task)),
                            },
                        )
                        &&& final(self).state == SenderState::AwaitStatus
                        &&& final(self).msg_id == next_id(old(self).msg_id)
                    } else {
                        r@.len() == 0 && *final(self) == *old(self)
                    }
                } else {
                    &&& r@.len() == 1
                    &&& r@[0]@ == ack_text(m.id, m.name, None)
                    &&& final(self).msg_id == old(self).msg_id
                    &&& if m.name == "status"@ && m.payload is Some && json_int_field(
                        m.payload->0,
                        "type"@,
                    ) == Some(1i64) {
                        final(self).state is Completed
                    } else if m.name == "status"@ && m.payload is Some && json_int_field(
                        m.payload->0,
                        "type"@,
                    ) == Some(3i64) {
                        &&& final(self).state is Rejected
                        &&& final(self).state->Rejected_0@ == match json_str_field(
                            m.payload->0,
                            "reason"@,
                        ) {
                            Some(x) => x,
                            None => "rejected"@,
                        }
                    } else {
                        final(self).state == old(self).state
                    }
                }
            }),
    {
        let mut out: Vec<String> = Vec::new();
        if self.is_finished() {
            return out;
        }
        let msg = match WsMessage::parse(text) {
            Some(m) => m,
            None => {
                return out;
            },
        };
        proof {
            reveal_strlit("ack");
            reveal_strlit("action");
            reveal_strlit("versionNegotiation");
            reveal_strlit("status");
        }
        if crate::text::same_text(msg.msg_type.as_str(), "ack") {
            let awaiting = match self.state {
                SenderState::AwaitVersionAck => true,
                _ => false,
            };
            if crate::text::same_text(msg.name.as_str(), "versionNegotiation") && awaiting {
                if self.msg_id < u32::MAX {
                    self.msg_id = self.msg_id + 1;
                }
                self.state = SenderState::AwaitStatus;
                let payload = send_request_json(task);
                out.push(WsMessage::action(self.msg_id, "sendRequest", Some(payload)).to_string());
            }
            return out;
        }
        out.push(WsMessage::ack(msg.id, msg.name.as_str(), None).to_string());
        if crate::text::same_text(msg.name.as_str(), "status") {
            if let Some(p) = &msg.payload {
                let t = json_get_i64(p.as_str(), "type");
                if t == Some(1i64) {
                    self.state = SenderState::Completed;
                } else if t == Some(3i64) {
                    let reason = match json_get_str(p.as_str(), "reason") {
                        Some(s) => s,
                        None => String::from_str("rejected"),
                    };
                    self.state = SenderState::Rejected(reason);
                }
            }
        }
        out
    }

    /// The socket failed or closed: an unfinished session fails.
    pub fn on_closed(&mut self)
        ensures
            final(self).msg_id == old(self).msg_id,
            final(self).state == if old(self).state is Completed || old(self).state is Rejected
                || old(self).state is Failed {
                old(self).state
            } else {
                SenderState::Failed
            },
    {
        if !self.is_finished() {
            self.state = SenderState::Failed;
        }
    }
}

} // verus!
