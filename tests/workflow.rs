use cattysend::config::BrandId;
use cattysend::messages::FileEntry;
use cattysend::messages::TransferTask;
use cattysend::workflow::base_name;
use cattysend::workflow::gateway_ip;
use cattysend::workflow::zip_entry_name;
use cattysend::workflow::ReceiveOptions;
use cattysend::workflow::Receiver;
use cattysend::workflow::ReceiverClient;
use cattysend::workflow::SendOptions;
use cattysend::workflow::WsClient;

#[test]
fn gateway_from_local_address() {
    assert_eq!(gateway_ip("10.42.0.57"), "10.42.0.1");
    assert_eq!(gateway_ip("192.168.49.23"), "192.168.49.1");
    assert_eq!(gateway_ip("garbage"), "192.168.49.1");
    assert_eq!(gateway_ip("1.2.3"), "192.168.49.1");
}

#[test]
fn receiver_session_basics() {
    let opts = ReceiveOptions::with_defaults("host".to_string(), "/tmp".to_string());
    assert_eq!(opts.brand_id, BrandId::Linux);
    assert!(!opts.auto_accept);
    let r = Receiver::new(opts).unwrap();
    assert_eq!(r.get_gateway_ip("10.42.0.2"), "10.42.0.1");
    let info = r.device_info("AA:BB:CC:DD:EE:FF".to_string());
    assert_eq!(info.key.as_deref(), Some(r.public_key()));
    assert_eq!(r.options().device_name, "host");
}

#[test]
fn endpoint_urls() {
    let c = ReceiverClient::new("10.42.0.1", 8443, "/tmp".to_string());
    assert_eq!(c.websocket_url(), "wss://10.42.0.1:8443/websocket");
    assert_eq!(c.download_url("T1"), "https://10.42.0.1:8443/download?taskId=T1");
    assert_eq!(WsClient::new("wss://x").url, "wss://x");
    assert_eq!(SendOptions::with_name("me".to_string()).wifi_interface, "wlan0");
}

#[test]
fn archive_entry_names() {
    assert_eq!(zip_entry_name(0, "a.txt"), "0/a.txt");
    assert_eq!(zip_entry_name(12, "b"), "12/b");
    assert_eq!(base_name("0/a.txt"), "a.txt");
    assert_eq!(base_name("x/y/z"), "z");
    assert_eq!(base_name("plain"), "plain");
    assert_eq!(base_name("dir/"), "");
}

#[test]
fn download_route_checks_task() {
    let task = TransferTask {
        task_id: "abc".to_string(),
        files: vec![FileEntry { path: "/p".to_string(), name: "p".to_string(), size: 1, mime_type: "text/plain".to_string() }],
        sender_id: "1234".to_string(),
        sender_name: "me".to_string(),
    };
    assert_eq!(task.download_status("abc"), 200);
    assert_eq!(task.download_status("abd"), 404);
    assert!(task.matches_download("abc"));
}

use cattysend::workflow::download_task_id;

#[test]
fn download_request_lines() {
    assert_eq!(download_task_id("GET /download?taskId=abc HTTP/1.1"), Some("abc".to_string()));
    assert_eq!(download_task_id("GET /download?x=1&taskId=t-2&taskId=z HTTP/1.1"), Some("t-2".to_string()));
    assert_eq!(download_task_id("GET /download?x=1 HTTP/1.1"), None);
    assert_eq!(download_task_id("POST /download?taskId=abc HTTP/1.1"), None);
    assert_eq!(download_task_id("GET /other?taskId=abc HTTP/1.1"), None);
    assert_eq!(download_task_id("GET /download?taskId="), Some("".to_string()));
}

use cattysend::workflow::SendEvent;
use cattysend::workflow::SendSession;
use cattysend::workflow::SendStep;
use cattysend::workflow::TransferStatus;

#[test]
fn send_session_completion_stops_group() {
    let mut s = SendSession::new();
    s.on_group_up();
    match s.on_status(TransferStatus::Progress { sent: 3, total: 10 }, 1000) {
        SendStep::Emit(SendEvent::Progress { sent, total }) => assert_eq!((sent, total), (3, 10)),
        other => panic!("unexpected {:?}", other),
    }
    assert!(matches!(s.on_status(TransferStatus::Accepted, 1000), SendStep::Nothing));
    assert!(matches!(s.on_status(TransferStatus::Completed, 2000), SendStep::EmitAndStopGroup(SendEvent::Complete)));
    assert!(s.finished && !s.group_up);
    assert!(matches!(s.on_status(TransferStatus::Completed, 2000), SendStep::Nothing));
}

#[test]
fn send_session_errors_and_deadline() {
    let mut s = SendSession::new();
    s.on_group_up();
    match s.on_status(TransferStatus::Rejected("user refuse".to_string()), 10) {
        SendStep::EmitAndStopGroup(SendEvent::Error(e)) => assert_eq!(e, "Rejected by receiver: user refuse"),
        other => panic!("unexpected {:?}", other),
    }
    let mut t = SendSession::new();
    match t.on_status(TransferStatus::Failed("io".to_string()), 10) {
        SendStep::EmitAndStopGroup(SendEvent::Error(e)) => assert_eq!(e, "Transfer failed: io"),
        other => panic!("unexpected {:?}", other),
    }
    let mut u = SendSession::new();
    match u.on_status(TransferStatus::Progress { sent: 1, total: 2 }, 300_000) {
        SendStep::EmitAndStopGroup(SendEvent::Error(e)) => assert_eq!(e, "Transfer timed out"),
        other => panic!("unexpected {:?}", other),
    }
    let mut v = SendSession::new();
    assert!(!v.on_step_failed());
    let mut w = SendSession::new();
    w.on_group_up();
    assert!(w.on_step_failed());
    assert!(w.finished && !w.group_up);
}
