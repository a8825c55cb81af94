use cattysend::control::ControlAction;
use cattysend::control::ControlState;
use cattysend::control::ReceiverSession;
use cattysend::messages::SendRequest;

fn request(task: &str) -> SendRequest {
    SendRequest {
        task_id: Some(task.to_string()),
        id: None,
        sender_id: None,
        sender_name: "S".to_string(),
        file_name: "f.bin".to_string(),
        mime_type: "application/octet-stream".to_string(),
        file_count: 1,
        total_size: 10,
        cat_share_text: None,
        thumbnail: None,
    }
}

fn sent(a: ControlAction) -> String {
    match a {
        ControlAction::Send(s) => s,
        other => panic!("expected a frame, got {:?}", other),
    }
}

#[test]
fn version_negotiation_is_acknowledged() {
    let mut s = ReceiverSession::new();
    let a = s.on_text("action:0:versionNegotiation?{\"version\":1,\"versions\":[1]}");
    assert_eq!(sent(a), "ack:0:versionNegotiation?{\"version\":1,\"threadLimit\":5}");
    assert_eq!(s.state, ControlState::AwaitSendRequest);
}

#[test]
fn refusal_sends_status_three() {
    let mut s = ReceiverSession::new();
    s.on_text("action:0:versionNegotiation?{\"version\":1,\"versions\":[1]}");
    let a = s.on_text("action:5:sendRequest?{\"taskId\":\"T\",\"senderName\":\"S\",\"fileName\":\"f.bin\",\"mimeType\":\"application/octet-stream\",\"fileCount\":1,\"totalSize\":10}");
    let (msg_id, payload) = match a {
        ControlAction::Decide { msg_id, payload } => (msg_id, payload),
        other => panic!("expected a decision, got {:?}", other),
    };
    assert_eq!(msg_id, 5);
    let v: serde_json::Value = serde_json::from_str(&payload).unwrap();
    assert_eq!(v["taskId"], "T");
    let frame = s.on_decision(msg_id, &request("T"), false).unwrap();
    assert_eq!(frame, "action:1:status?{\"taskId\":\"T\",\"id\":\"T\",\"type\":3,\"reason\":\"user refuse\"}");
    assert_eq!(s.state, ControlState::Rejected);
    assert!(s.is_finished());
    assert!(matches!(s.on_text("action:9:other"), ControlAction::Nothing));
}

#[test]
fn acceptance_then_completion() {
    let mut s = ReceiverSession::new();
    s.on_text("action:0:versionNegotiation?{\"version\":1,\"versions\":[1]}");
    let frame = s.on_decision(3, &request("abc"), true).unwrap();
    assert_eq!(frame, "ack:3:sendRequest");
    assert_eq!(s.state, ControlState::Downloading);
    assert_eq!(s.task_id.as_deref(), Some("abc"));
    assert_eq!(s.total_size, 10);
    let done = s.on_download_complete().unwrap();
    assert_eq!(done, "action:1:status?{\"taskId\":\"abc\",\"id\":\"abc\",\"type\":1,\"reason\":\"ok\"}");
    assert_eq!(s.state, ControlState::Completed);
    assert!(s.on_download_complete().is_none());
}

#[test]
fn other_actions_are_acknowledged_and_garbage_ignored() {
    let mut s = ReceiverSession::new();
    assert_eq!(sent(s.on_text("action:4:ping?{}")), "ack:4:ping");
    assert!(matches!(s.on_text("garbage"), ControlAction::Nothing));
    assert!(matches!(s.on_text("ack:4:ping"), ControlAction::Nothing));
    assert!(matches!(s.on_text("action:2:sendRequest"), ControlAction::Nothing));
    assert_eq!(s.state, ControlState::AwaitVersionNegotiation);
}

#[test]
fn close_fails_unfinished_session() {
    let mut s = ReceiverSession::new();
    s.on_closed();
    assert_eq!(s.state, ControlState::Failed);
    let mut t = ReceiverSession::new();
    t.on_bad_request();
    assert_eq!(t.state, ControlState::Failed);
    assert!(t.on_decision(1, &request("x"), true).is_none());
}

use cattysend::control::SenderSession;
use cattysend::control::SenderState;
use cattysend::messages::FileEntry;
use cattysend::messages::TransferTask;

fn task() -> TransferTask {
    TransferTask {
        task_id: "tid".to_string(),
        files: vec![
            FileEntry { path: "/a/x.txt".to_string(), name: "x.txt".to_string(), size: 3, mime_type: "text/plain".to_string() },
            FileEntry { path: "/a/y.bin".to_string(), name: "y.bin".to_string(), size: 7, mime_type: "application/octet-stream".to_string() },
        ],
        sender_id: "ab12".to_string(),
        sender_name: "laptop".to_string(),
    }
}

#[test]
fn sender_session_flow_completed() {
    let (mut s, first) = SenderSession::start();
    assert_eq!(first, "action:0:versionNegotiation?{\"version\":1,\"versions\":[1]}");
    let out = s.on_text("ack:0:versionNegotiation?{\"version\":1,\"threadLimit\":5}", &task());
    assert_eq!(out.len(), 1);
    assert_eq!(
        out[0],
        "action:1:sendRequest?{\"taskId\":\"tid\",\"id\":\"tid\",\"senderId\":\"ab12\",\"senderName\":\"laptop\",\"fileName\":\"x.txt\",\"mimeType\":\"text/plain\",\"fileCount\":2,\"totalSize\":10}"
    );
    assert_eq!(s.state, SenderState::AwaitStatus);
    let out = s.on_text("ack:1:sendRequest", &task());
    assert!(out.is_empty());
    let out = s.on_text("action:1:status?{\"taskId\":\"tid\",\"id\":\"tid\",\"type\":1,\"reason\":\"ok\"}", &task());
    assert_eq!(out, vec!["ack:1:status".to_string()]);
    assert_eq!(s.state, SenderState::Completed);
    assert!(s.is_finished());
}

#[test]
fn sender_session_rejected() {
    let (mut s, _) = SenderSession::start();
    s.on_text("ack:0:versionNegotiation", &task());
    let out = s.on_text("action:1:status?{\"taskId\":\"tid\",\"id\":\"tid\",\"type\":3,\"reason\":\"user refuse\"}", &task());
    assert_eq!(out, vec!["ack:1:status".to_string()]);
    assert_eq!(s.state, SenderState::Rejected("user refuse".to_string()));
    let (mut t, _) = SenderSession::start();
    t.on_text("action:1:status?{\"type\":3}", &task());
    assert_eq!(t.state, SenderState::Rejected("rejected".to_string()));
    let (mut u, _) = SenderSession::start();
    u.on_closed();
    assert_eq!(u.state, SenderState::Failed);
}

#[test]
fn sender_request_for_empty_task() {
    let mut empty = task();
    empty.files.clear();
    let payload = cattysend::control::send_request_json(&empty);
    let v: serde_json::Value = serde_json::from_str(&payload).unwrap();
    assert_eq!(v["fileName"], "");
    assert_eq!(v["mimeType"], "application/octet-stream");
    assert_eq!(v["fileCount"], 0);
    assert_eq!(v["totalSize"], 0);
}
