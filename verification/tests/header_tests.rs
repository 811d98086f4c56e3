use lsplex::header::{HeaderParser, HeaderStep};
use lsplex::msg::LspMsgError;

fn feed(lines: &[&str]) -> Vec<HeaderStep> {
    let mut p = HeaderParser::new();
    lines.iter().map(|l| p.feed_line(l)).collect()
}

#[test]
fn length_then_empty_line() {
    assert_eq!(
        feed(&["Content-Length: 15\r\n", "\r\n"]),
        vec![HeaderStep::Continue, HeaderStep::Payload(15)]
    );
}

#[test]
fn other_headers_are_skipped() {
    assert_eq!(
        feed(&[
            "Content-Type: application/vscode-jsonrpc; charset=utf-8\r\n",
            "Content-Length: 3\n",
            "\n"
        ]),
        vec![HeaderStep::Continue, HeaderStep::Continue, HeaderStep::Payload(3)]
    );
}

#[test]
fn last_length_counts() {
    assert_eq!(
        feed(&["Content-Length: 3\r\n", "Content-Length: 8\r\n", "\r\n"]),
        vec![HeaderStep::Continue, HeaderStep::Continue, HeaderStep::Payload(8)]
    );
}

#[test]
fn missing_length_fails() {
    assert_eq!(
        feed(&["\r\n"]),
        vec![HeaderStep::Fail(LspMsgError::ParsingFailed)]
    );
    assert_eq!(
        feed(&["Content-Length: 0\r\n", "\r\n"]),
        vec![HeaderStep::Continue, HeaderStep::Fail(LspMsgError::ParsingFailed)]
    );
}

#[test]
fn end_of_input_fails() {
    assert_eq!(feed(&[""]), vec![HeaderStep::Fail(LspMsgError::Eof)]);
}

#[test]
fn bad_numbers_fail() {
    for line in [
        "Content-Length: abc\r\n",
        "Content-Length:\r\n",
        "Content-Length: -1\r\n",
        "Content-Length: 1 2\r\n",
        "Content-Length: +\r\n",
        "Content-Length: 99999999999999999999999\r\n",
    ] {
        assert_eq!(
            feed(&[line]),
            vec![HeaderStep::Fail(LspMsgError::ParsingFailed)],
            "{line:?}"
        );
    }
}

#[test]
fn numbers_as_usize_parses_them() {
    assert_eq!(
        feed(&["Content-Length:+12\t \r\n", "\r\n"]),
        vec![HeaderStep::Continue, HeaderStep::Payload(12)]
    );
    assert_eq!(
        feed(&["Content-Length: 007\r\r\n", "\r\n"]),
        vec![HeaderStep::Continue, HeaderStep::Payload(7)]
    );
    // unicode white space around the number is trimmed
    assert_eq!(
        feed(&["Content-Length:\u{3000}5\u{a0}\r\n", "\r\n"]),
        vec![HeaderStep::Continue, HeaderStep::Payload(5)]
    );
}

#[test]
fn header_name_is_case_sensitive() {
    assert_eq!(
        feed(&["content-length: 5\r\n", "\r\n"]),
        vec![HeaderStep::Continue, HeaderStep::Fail(LspMsgError::ParsingFailed)]
    );
}
