use lsplex::diagnostic::DgnPublisher;
use lsplex::error::MiddlewareError;
use lsplex::json::{Json, JsonNumber};
use lsplex::lsp::ServerMessage;
use lsplex::manager::{
    client_msg_sent, handle_client_msg, handle_server_msg, request_sent_to_client, ServerAction,
};
use lsplex::msg::LspMessage;
use lsplex::tracker::Tracker;

fn names(v: &[&str]) -> Vec<String> {
    v.iter().map(|s| s.to_string()).collect()
}

fn obj(members: Vec<(&str, Json)>) -> Json {
    Json::Object(members.into_iter().map(|(k, v)| (k.to_string(), v)).collect())
}

fn from(server: &str, content: LspMessage) -> Option<ServerMessage> {
    Some(ServerMessage { server_name: server.to_string(), content })
}

fn setup() -> (Vec<String>, DgnPublisher, Tracker) {
    (names(&["a", "b"]), DgnPublisher::new(2), Tracker::new("a".to_string()))
}

#[test]
fn closed_client_channel_is_an_error() {
    let (servers, mut d, mut t) = setup();
    assert!(matches!(
        handle_client_msg(None, &servers, &mut d, &mut t),
        Err(MiddlewareError::ClientFail)
    ));
}

#[test]
fn closed_server_channel_is_an_error() {
    let (_, mut d, mut t) = setup();
    assert!(matches!(
        handle_server_msg(None, true, &mut d, &mut t),
        Err(MiddlewareError::LspCommFail)
    ));
}

#[test]
fn initialize_fans_out_and_merges_capabilities() {
    let (servers, mut d, mut t) = setup();
    let init = LspMessage::Request(1, "initialize".to_string(), Json::Null);
    let routing = handle_client_msg(Some(init), &servers, &mut d, &mut t).unwrap();
    let mut targets = routing.targets.clone();
    targets.sort();
    assert_eq!(targets, servers);
    for target in routing.targets.iter() {
        client_msg_sent(&routing.message, target, &mut t);
    }

    let caps = |names: &[&str]| {
        obj(vec![(
            "result",
            obj(vec![(
                "capabilities",
                obj(names.iter().map(|n| (*n, Json::Bool(true))).collect()),
            )]),
        )])
    };
    let r = handle_server_msg(
        from("a", LspMessage::Result(1, String::new(), caps(&["hoverProvider"]))),
        true,
        &mut d,
        &mut t,
    )
    .unwrap();
    assert!(matches!(r, ServerAction::Nothing));
    let r = handle_server_msg(
        from("b", LspMessage::Result(1, String::new(), caps(&["definitionProvider"]))),
        true,
        &mut d,
        &mut t,
    )
    .unwrap();
    match r {
        ServerAction::SendToClient(LspMessage::Result(1, _, Json::Object(members))) => {
            assert_eq!(members.len(), 1);
            match &members[0].1 {
                Json::Object(res) => match &res[0].1 {
                    Json::Object(c) => assert_eq!(c.len(), 2),
                    _ => panic!("no capabilities"),
                },
                _ => panic!("no result"),
            }
        }
        _ => panic!("merged reply not sent"),
    }
    assert_eq!(t.get_capable_servers("textDocument/hover", &servers), names(&["a"]));
    assert_eq!(t.get_capable_servers("textDocument/definition", &servers), names(&["b"]));
}

#[test]
fn request_goes_to_capable_server_and_reply_comes_back() {
    let (servers, mut d, mut t) = setup();
    t.register_capability("hoverProvider", "b".to_string());
    let req = LspMessage::Request(7, "textDocument/hover".to_string(), Json::Null);
    let routing = handle_client_msg(Some(req), &servers, &mut d, &mut t).unwrap();
    assert_eq!(routing.targets, names(&["b"]));
    assert!(!routing.abort_diagnostics);
    client_msg_sent(&routing.message, &routing.targets[0], &mut t);
    let reply = LspMessage::Result(7, String::new(), Json::Bool(true));
    match handle_server_msg(from("b", reply), true, &mut d, &mut t).unwrap() {
        ServerAction::SendToClient(LspMessage::Result(7, _, Json::Bool(true))) => {}
        _ => panic!("reply not sent to the client"),
    }
}

#[test]
fn server_request_reply_is_routed_back() {
    let (servers, mut d, mut t) = setup();
    let req = LspMessage::Request(40, "workspace/configuration".to_string(), Json::Null);
    match handle_server_msg(from("b", req), true, &mut d, &mut t).unwrap() {
        ServerAction::ForwardRequest { message, requester } => {
            assert!(matches!(message, LspMessage::Request(40, _, _)));
            assert_eq!(requester, "b");
            request_sent_to_client(&message, requester, &mut t);
        }
        _ => panic!("request not sent to the client"),
    }
    let reply = LspMessage::Result(40, String::new(), Json::Null);
    let routing = handle_client_msg(Some(reply), &servers, &mut d, &mut t).unwrap();
    assert_eq!(routing.targets, names(&["b"]));
    // a second reply with that id goes nowhere
    let again = LspMessage::Result(40, String::new(), Json::Null);
    let routing = handle_client_msg(Some(again), &servers, &mut d, &mut t).unwrap();
    assert!(routing.targets.is_empty());
}

#[test]
fn reply_to_gone_server_goes_nowhere() {
    let (servers, mut d, mut t) = setup();
    t.server_issued_request("gone".to_string(), 3);
    let reply = LspMessage::Result(3, String::new(), Json::Null);
    let routing = handle_client_msg(Some(reply), &servers, &mut d, &mut t).unwrap();
    assert!(routing.targets.is_empty());
}

#[test]
fn notifications_go_to_all_and_did_change_resets_diagnostics() {
    let (servers, mut d, mut t) = setup();
    let note = LspMessage::Notification("textDocument/didOpen".to_string(), Json::Null);
    let routing = handle_client_msg(Some(note), &servers, &mut d, &mut t).unwrap();
    assert_eq!(routing.targets, servers);
    assert!(!routing.abort_diagnostics);

    // start a diagnostics task, then change the document
    let diag = LspMessage::Notification("textDocument/publishDiagnostics".to_string(), Json::Null);
    assert!(matches!(
        handle_server_msg(from("a", diag), true, &mut d, &mut t).unwrap(),
        ServerAction::SpawnDiagnostics { abort_previous: false, outstanding: 1, .. }
    ));
    let change = LspMessage::Notification("textDocument/didChange".to_string(), Json::Null);
    let routing = handle_client_msg(Some(change), &servers, &mut d, &mut t).unwrap();
    assert_eq!(routing.targets, servers);
    assert!(routing.abort_diagnostics);
    assert!(!d.submit_diagnostics);
}

#[test]
fn diagnostics_are_pushed_to_a_running_task() {
    let (_, mut d, mut t) = setup();
    let diag = || LspMessage::Notification("textDocument/publishDiagnostics".to_string(), Json::Null);
    assert!(matches!(
        handle_server_msg(from("a", diag()), true, &mut d, &mut t).unwrap(),
        ServerAction::SpawnDiagnostics { abort_previous: false, outstanding: 1, .. }
    ));
    assert!(matches!(
        handle_server_msg(from("b", diag()), false, &mut d, &mut t).unwrap(),
        ServerAction::PushDiagnostics(_)
    ));
    // once the task has finished, the next diagnostics start a new one
    assert!(matches!(
        handle_server_msg(from("b", diag()), true, &mut d, &mut t).unwrap(),
        ServerAction::SpawnDiagnostics { abort_previous: true, outstanding: 1, .. }
    ));
}

#[test]
fn other_notifications_go_to_the_client() {
    let (_, mut d, mut t) = setup();
    let log = LspMessage::Notification(
        "window/logMessage".to_string(),
        obj(vec![("type", Json::Number(JsonNumber::PosInt(3)))]),
    );
    assert!(matches!(
        handle_server_msg(from("a", log), true, &mut d, &mut t).unwrap(),
        ServerAction::SendToClient(LspMessage::Notification(_, _))
    ));
}

#[test]
fn unsent_request_is_not_awaited() {
    let (servers, mut d, mut t) = setup();
    let req = LspMessage::Request(8, "textDocument/hover".to_string(), Json::Null);
    let routing = handle_client_msg(Some(req), &servers, &mut d, &mut t).unwrap();
    assert_eq!(routing.targets, names(&["a"]));
    // the send failed: nothing was recorded, so no reply completes id 8
    assert!(!t.all_servers_replied(8));
    let reply = LspMessage::Result(8, String::new(), Json::Null);
    assert!(matches!(
        handle_server_msg(from("a", reply), true, &mut d, &mut t).unwrap(),
        ServerAction::Nothing
    ));
}

#[test]
fn unforwarded_server_request_has_no_reply_route() {
    let (servers, mut d, mut t) = setup();
    let req = LspMessage::Request(41, "window/showMessageRequest".to_string(), Json::Null);
    assert!(matches!(
        handle_server_msg(from("a", req), true, &mut d, &mut t).unwrap(),
        ServerAction::ForwardRequest { .. }
    ));
    let reply = LspMessage::Result(41, String::new(), Json::Null);
    let routing = handle_client_msg(Some(reply), &servers, &mut d, &mut t).unwrap();
    assert!(routing.targets.is_empty());
}

#[test]
fn replies_merge_without_any_diagnostics_bookkeeping() {
    let mut t = Tracker::new(String::new());
    let mut d = DgnPublisher::new(0);
    t.client_issued_request(7, "a".to_string());
    t.client_issued_request(7, "b".to_string());
    let reply = |i: u64| {
        obj(vec![
            ("id", Json::Number(JsonNumber::PosInt(7))),
            ("result", Json::Array(vec![Json::Number(JsonNumber::PosInt(i))])),
        ])
    };
    let r = handle_server_msg(
        from("a", LspMessage::Result(7, String::new(), reply(1))),
        true,
        &mut d,
        &mut t,
    )
    .unwrap();
    assert!(matches!(r, ServerAction::Nothing));
    let r = handle_server_msg(
        from("b", LspMessage::Result(7, String::new(), reply(2))),
        true,
        &mut d,
        &mut t,
    )
    .unwrap();
    match r {
        ServerAction::SendToClient(m) => {
            assert_eq!(m.format_with_header(), "Content-Length: 23\r\n\r\n{\"id\":7,\"result\":[1,2]}");
        }
        _ => panic!("merged reply not sent"),
    }
}
