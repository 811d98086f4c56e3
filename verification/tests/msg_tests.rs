use lsplex::header::{HeaderParser, HeaderStep};
use lsplex::json::{Json, JsonNumber};
use lsplex::msg::{LspMessage, LspMsgError};

fn text(s: &str) -> Json {
    Json::Text(s.to_string())
}

fn obj(members: Vec<(&str, Json)>) -> Json {
    Json::Object(members.into_iter().map(|(k, v)| (k.to_string(), v)).collect())
}

fn num(i: u64) -> Json {
    Json::Number(JsonNumber::PosInt(i))
}

#[test]
fn notification_without_id() {
    let m = LspMessage::from_json(obj(vec![("method", text("textDocument/didOpen"))])).unwrap();
    match m {
        LspMessage::Notification(method, _) => assert_eq!(method, "textDocument/didOpen"),
        _ => panic!("not a notification"),
    }
}

#[test]
fn request_with_id() {
    let m = LspMessage::from_json(obj(vec![("id", num(4)), ("method", text("textDocument/hover"))]))
        .unwrap();
    match m {
        LspMessage::Request(id, method, _) => {
            assert_eq!(id, 4);
            assert_eq!(method, "textDocument/hover");
        }
        _ => panic!("not a request"),
    }
}

#[test]
fn result_with_result_member() {
    let m = LspMessage::from_json(obj(vec![("id", num(9)), ("result", Json::Null)])).unwrap();
    match m {
        LspMessage::Result(id, method, _) => {
            assert_eq!(id, 9);
            assert_eq!(method, "");
        }
        _ => panic!("not a result"),
    }
}

#[test]
fn negative_id_is_read() {
    let m = LspMessage::from_json(obj(vec![("id", Json::Number(JsonNumber::NegInt(-3)))])).unwrap();
    assert!(matches!(m, LspMessage::Request(-3, _, _)));
}

#[test]
fn method_that_is_not_a_string_is_empty() {
    let m = LspMessage::from_json(obj(vec![("method", num(1))])).unwrap();
    match m {
        LspMessage::Notification(method, _) => assert_eq!(method, ""),
        _ => panic!("not a notification"),
    }
}

#[test]
fn bad_ids_fail() {
    let fails = |id: Json| {
        matches!(
            LspMessage::from_json(obj(vec![("id", id)])),
            Err(LspMsgError::ParsingFailed)
        )
    };
    assert!(fails(text("7")));
    assert!(fails(Json::Number(JsonNumber::Float("1.5".to_string()))));
    assert!(fails(num(2147483648)));
    assert!(fails(Json::Number(JsonNumber::NegInt(-2147483649))));
    assert!(fails(num(u64::MAX)));
    assert!(!fails(num(2147483647)));
}

#[test]
fn body_that_is_not_an_object_is_a_notification() {
    let m = LspMessage::from_json(Json::Array(vec![])).unwrap();
    assert!(matches!(m, LspMessage::Notification(_, Json::Array(_))));
}

#[test]
fn merge_results() {
    let mut a = LspMessage::Result(1, "m".to_string(), Json::Array(vec![num(1)]));
    a.merge(LspMessage::Result(2, "n".to_string(), Json::Array(vec![num(2)])));
    match a {
        LspMessage::Result(id, method, Json::Array(items)) => {
            assert_eq!(id, 1);
            assert_eq!(method, "m");
            assert_eq!(items.len(), 2);
        }
        _ => panic!("merge changed the kind of message"),
    }
}

#[test]
fn merge_notifications() {
    let mut a = LspMessage::Notification("d".to_string(), obj(vec![("x", num(1))]));
    a.merge(LspMessage::Notification("d".to_string(), obj(vec![("y", num(2))])));
    match a {
        LspMessage::Notification(_, Json::Object(members)) => assert_eq!(members.len(), 2),
        _ => panic!("merge changed the kind of message"),
    }
}

#[test]
fn merge_with_request_changes_nothing() {
    let mut a = LspMessage::Request(1, "m".to_string(), num(1));
    a.merge(LspMessage::Request(1, "m".to_string(), num(2)));
    assert!(matches!(a, LspMessage::Request(1, _, Json::Number(JsonNumber::PosInt(1)))));
    let mut b = LspMessage::Result(1, "m".to_string(), num(1));
    b.merge(LspMessage::Notification("m".to_string(), num(2)));
    assert!(matches!(b, LspMessage::Result(1, _, Json::Number(JsonNumber::PosInt(1)))));
}

#[test]
fn format_with_header_frames_payload() {
    let m = LspMessage::Notification("x".to_string(), obj(vec![]));
    assert_eq!(m.format_with_header(), "Content-Length: 2\r\n\r\n{}");
    // the length counts bytes, not characters
    let m = LspMessage::Notification("x".to_string(), text("é"));
    assert_eq!(m.format_with_header(), "Content-Length: 4\r\n\r\n\"é\"");
    let long = "x".repeat(1232);
    let m = LspMessage::Result(1, String::new(), text(&long));
    assert_eq!(
        m.format_with_header(),
        format!("Content-Length: 1234\r\n\r\n\"{}\"", long)
    );
    // members are written in key order, compactly
    let m = LspMessage::Request(
        3,
        "m".to_string(),
        obj(vec![("method", text("m")), ("id", num(3)), ("params", Json::Array(vec![Json::Null]))]),
    );
    assert_eq!(
        m.format_with_header(),
        "Content-Length: 37\r\n\r\n{\"id\":3,\"method\":\"m\",\"params\":[null]}"
    );
}

#[test]
fn framed_message_reads_back() {
    let m = LspMessage::Notification("x".to_string(), obj(vec![("jsonrpc", text("2.0"))]));
    let framed = m.format_with_header();
    let mut lines = framed.split_inclusive('\n');
    let mut parser = HeaderParser::new();
    parser.content_length = 77;
    assert_eq!(parser.feed_line(lines.next().unwrap()), HeaderStep::Continue);
    let n = match parser.feed_line(lines.next().unwrap()) {
        HeaderStep::Payload(n) => n,
        other => panic!("{other:?}"),
    };
    let payload = lines.next().unwrap();
    assert_eq!(payload.len(), n);
    match LspMessage::message_from_payload(payload.as_bytes()).unwrap() {
        LspMessage::Notification(method, _) => assert_eq!(method, ""),
        _ => panic!("not a notification"),
    }
}

#[test]
fn payload_is_parsed_then_classified() {
    let m = LspMessage::message_from_payload(
        br#"{"jsonrpc":"2.0","id":12,"method":"textDocument/hover","params":{}}"#,
    )
    .unwrap();
    match m {
        LspMessage::Request(12, method, Json::Object(members)) => {
            assert_eq!(method, "textDocument/hover");
            assert_eq!(members.len(), 4);
        }
        _ => panic!("not a request"),
    }
    let r = LspMessage::message_from_payload(br#"{"id":1,"result":{"capabilities":{}}}"#).unwrap();
    assert!(matches!(r, LspMessage::Result(1, _, _)));
    let n = LspMessage::message_from_payload(br#"{"method":"initialized","params":{}}"#).unwrap();
    assert!(matches!(n, LspMessage::Notification(_, _)));
}

#[test]
fn payload_errors() {
    for bad in [&b"{"[..], b"", b"not json", b"{\"id\": 1} trailing", b"\xff"] {
        assert!(matches!(
            LspMessage::message_from_payload(bad),
            Err(LspMsgError::ParsingFailed)
        ));
    }
    assert!(matches!(
        LspMessage::message_from_payload(br#"{"id":"seven"}"#),
        Err(LspMsgError::ParsingFailed)
    ));
    assert!(matches!(
        LspMessage::message_from_payload(br#"{"id":1.5}"#),
        Err(LspMsgError::ParsingFailed)
    ));
}

#[test]
fn deep_copy_of_message() {
    let m = LspMessage::Result(5, "m".to_string(), Json::Bool(true));
    assert!(matches!(m.deep_copy(), LspMessage::Result(5, _, Json::Bool(true))));
    assert!(matches!(m.value(), Json::Bool(true)));
}
