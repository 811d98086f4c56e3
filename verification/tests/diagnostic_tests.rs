use lsplex::client::{forward_msg_to_middle, handle_message_from_server};
use lsplex::diagnostic::{DgnPublisher, DiagnosticEvent, DiagnosticMerge};
use lsplex::error::{ClientError, LspError};
use lsplex::json::{Json, JsonNumber};
use lsplex::lsp::{forward_server_msg, message_for_server};
use lsplex::msg::{LspMessage, LspMsgError};

fn diag(items: Vec<u64>) -> LspMessage {
    LspMessage::Notification(
        "textDocument/publishDiagnostics".to_string(),
        Json::Object(vec![(
            "diagnostics".to_string(),
            Json::Array(items.into_iter().map(|i| Json::Number(JsonNumber::PosInt(i))).collect()),
        )]),
    )
}

fn items(m: &LspMessage) -> usize {
    match m.value() {
        Json::Object(members) => match &members[0].1 {
            Json::Array(a) => a.len(),
            _ => panic!("no array"),
        },
        _ => panic!("no object"),
    }
}

#[test]
fn publishes_after_all_servers_sent_diagnostics() {
    let mut m = DiagnosticMerge::new(diag(vec![1]), 2);
    assert!(!m.finished());
    assert!(!m.step(DiagnosticEvent::Received(diag(vec![2, 3]))));
    assert!(m.step(DiagnosticEvent::Received(diag(vec![4]))));
    assert_eq!(items(&m.into_message()), 4);
}

#[test]
fn timeout_publishes_what_was_merged() {
    let mut m = DiagnosticMerge::new(diag(vec![1]), 3);
    assert!(!m.step(DiagnosticEvent::Received(diag(vec![2, 3]))));
    assert!(m.step(DiagnosticEvent::TimedOut));
    assert_eq!(items(&m.into_message()), 3);
    let mut m = DiagnosticMerge::new(diag(vec![1]), 1);
    assert!(m.step(DiagnosticEvent::TimedOut));
    assert_eq!(items(&m.into_message()), 1);
}

#[test]
fn single_server_publishes_at_once() {
    let m = DiagnosticMerge::new(diag(vec![1]), 0);
    assert!(m.finished());
    assert_eq!(items(&m.into_message()), 1);
}

#[test]
fn closed_channel_publishes_what_arrived() {
    let mut m = DiagnosticMerge::new(diag(vec![1]), 3);
    assert!(!m.step(DiagnosticEvent::Received(diag(vec![2]))));
    assert!(m.step(DiagnosticEvent::Closed));
    assert_eq!(items(&m.into_message()), 2);
}

#[test]
fn reset_and_spawn() {
    let mut d = DgnPublisher::new(3);
    assert!(!d.reset());
    let s = d.spawn_diagnostic_tracker();
    assert!(!s.abort_previous);
    assert_eq!(s.outstanding, 2);
    assert!(d.submit_diagnostics);
    let s = d.spawn_diagnostic_tracker();
    assert!(s.abort_previous);
    assert!(d.reset());
    assert!(!d.submit_diagnostics);
    assert!(d.merged_diagnostics.is_none());
    assert_eq!(d.num_servers, 3);
}

#[test]
fn client_side_errors() {
    assert!(matches!(forward_msg_to_middle(None), Err(ClientError::FailedReadMsg)));
    assert!(matches!(handle_message_from_server(None), Err(ClientError::FailedRecvMsg)));
    assert!(forward_msg_to_middle(Some(diag(vec![]))).is_ok());
    assert!(handle_message_from_server(Some(diag(vec![]))).is_ok());
}

#[test]
fn server_side_errors() {
    let name = "a".to_string();
    assert!(matches!(
        forward_server_msg(&name, Err(LspMsgError::IoFailed)),
        Err(LspError::ReadMsgError)
    ));
    assert!(matches!(message_for_server(None), Err(LspError::RecvMsgError)));
    let sm = forward_server_msg(&name, Ok(diag(vec![]))).unwrap();
    assert_eq!(sm.server_name, "a");
    assert!(message_for_server(Some(diag(vec![1]))).is_ok());
}
