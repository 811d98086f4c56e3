use lsplex::json::{Json, JsonNumber};
use lsplex::msg::LspMessage;
use lsplex::tracker::Tracker;

fn names(v: &[&str]) -> Vec<String> {
    v.iter().map(|s| s.to_string()).collect()
}

fn sorted(mut v: Vec<String>) -> Vec<String> {
    v.sort();
    v
}

fn result(id: i32, items: Vec<u64>) -> LspMessage {
    LspMessage::Result(
        id,
        String::new(),
        Json::Array(items.into_iter().map(|i| Json::Number(JsonNumber::PosInt(i))).collect()),
    )
}

#[test]
fn client_reply_goes_back_to_requesting_server() {
    let mut t = Tracker::new("a".to_string());
    t.server_issued_request("b".to_string(), 12);
    assert_eq!(t.client_responded(12), Some("b".to_string()));
    assert_eq!(t.client_responded(12), None);
    assert_eq!(t.client_responded(13), None);
}

#[test]
fn replies_are_awaited_then_merged() {
    let mut t = Tracker::new("a".to_string());
    assert!(!t.all_servers_replied(5));
    t.client_issued_request(5, "a".to_string());
    t.client_issued_request(5, "b".to_string());
    assert!(!t.all_servers_replied(5));
    t.server_responded(5, &"b".to_string(), result(5, vec![1]));
    assert!(!t.all_servers_replied(5));
    t.server_responded(5, &"a".to_string(), result(5, vec![2, 3]));
    assert!(t.all_servers_replied(5));
    match t.get_merged_response(5) {
        Some(LspMessage::Result(5, _, Json::Array(items))) => {
            let got: Vec<u64> = items
                .iter()
                .map(|j| match j {
                    Json::Number(JsonNumber::PosInt(u)) => *u,
                    _ => panic!("not a number"),
                })
                .collect();
            assert_eq!(got, vec![1, 2, 3]);
        }
        _ => panic!("no merged reply"),
    }
    assert!(t.get_merged_response(5).is_none());
}

#[test]
fn reply_of_unknown_server_does_not_complete() {
    let mut t = Tracker::new("a".to_string());
    t.client_issued_request(2, "a".to_string());
    t.server_responded(2, &"z".to_string(), result(2, vec![]));
    assert!(!t.all_servers_replied(2));
    // a reply to a request nobody awaits is kept but completes nothing
    t.server_responded(3, &"a".to_string(), result(3, vec![7]));
    assert!(!t.all_servers_replied(3));
    assert!(t.get_merged_response(3).is_some());
}

#[test]
fn lifecycle_requests_go_to_all() {
    let t = Tracker::new("a".to_string());
    let servers = names(&["a", "b", "c"]);
    assert_eq!(sorted(t.get_capable_servers("initialize", &servers)), servers);
    assert_eq!(sorted(t.get_capable_servers("initialized", &servers)), servers);
}

#[test]
fn unannounced_capability_goes_to_first() {
    let t = Tracker::new("a".to_string());
    let servers = names(&["b", "a"]);
    assert_eq!(t.get_capable_servers("textDocument/hover", &servers), names(&["b"]));
    assert_eq!(t.get_capable_servers("no/such/method", &servers), names(&["b"]));
    assert!(t.get_capable_servers("textDocument/hover", &vec![]).is_empty());
}

#[test]
fn announced_capability_picks_capable_servers() {
    let mut t = Tracker::new("a".to_string());
    t.register_capability("hoverProvider", "b".to_string());
    t.register_capability("hoverProvider", "c".to_string());
    t.register_capability("hoverProvider", "unknown".to_string());
    let servers = names(&["a", "b", "c"]);
    // the default server did not announce it: the first known capable one
    assert_eq!(t.get_capable_servers("textDocument/hover", &servers), names(&["b"]));
    let only_c = names(&["a", "c"]);
    assert_eq!(t.get_capable_servers("textDocument/hover", &only_c), names(&["c"]));
    assert!(t.get_capable_servers("textDocument/hover", &names(&["a"])).is_empty());
}

#[test]
fn default_server_takes_the_request() {
    let mut t = Tracker::new("a".to_string());
    t.register_capability("hoverProvider", "b".to_string());
    t.register_capability("hoverProvider", "a".to_string());
    t.register_capability("hoverProvider", "c".to_string());
    t.register_capability("codeActionProvider", "b".to_string());
    t.register_capability("codeActionProvider", "a".to_string());
    t.register_capability("codeActionProvider", "c".to_string());
    let servers = names(&["a", "b", "c"]);
    assert_eq!(t.get_capable_servers("textDocument/hover", &servers), names(&["a"]));
    // code actions are asked of every capable server
    assert_eq!(
        sorted(t.get_capable_servers("textDocument/codeAction", &servers)),
        names(&["a", "b", "c"])
    );
}

#[test]
fn repeated_announcements_route_once() {
    let mut t = Tracker::new("x".to_string());
    t.register_capability("definitionProvider", "b".to_string());
    t.register_capability("definitionProvider", "b".to_string());
    let servers = names(&["a", "b"]);
    assert_eq!(t.get_capable_servers("textDocument/definition", &servers), names(&["b"]));
}

#[test]
fn complete_exactly_when_every_awaited_server_replied() {
    let mut t = Tracker::new("a".to_string());
    t.client_issued_request(9, "a".to_string());
    t.client_issued_request(9, "b".to_string());
    for (server, done) in [("b", false), ("z", false), ("b", false), ("a", true)] {
        t.server_responded(9, &server.to_string(), result(9, vec![1]));
        assert_eq!(t.all_servers_replied(9), done);
    }
    assert!(!t.all_servers_replied(10));
}

#[test]
fn one_server_whatever_the_order_of_announcements() {
    let mut t = Tracker::new("a".to_string());
    t.register_capability("hoverProvider", "b".to_string());
    t.register_capability("hoverProvider", "a".to_string());
    let servers = names(&["a", "b"]);
    assert_eq!(t.get_capable_servers("textDocument/hover", &servers), names(&["a"]));
    let mut u = Tracker::new("a".to_string());
    u.register_capability("hoverProvider", "a".to_string());
    u.register_capability("hoverProvider", "b".to_string());
    assert_eq!(u.get_capable_servers("textDocument/hover", &servers), names(&["a"]));
}

#[test]
fn code_actions_skip_unknown_servers() {
    let mut t = Tracker::new("a".to_string());
    t.register_capability("codeActionProvider", "x".to_string());
    t.register_capability("codeActionProvider", "b".to_string());
    t.register_capability("codeActionProvider", "b".to_string());
    assert_eq!(
        t.get_capable_servers("textDocument/codeAction", &names(&["a", "b"])),
        names(&["b"])
    );
}
