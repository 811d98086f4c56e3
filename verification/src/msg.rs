use vstd::prelude::*;

use vstd::utf8::encode_utf8;

use crate::codec::{json_parse, json_text, parse_json, to_json_text};
use crate::json::{Json, JsonView, json_get, merge_json, merge_spec, number_as_i64};
use crate::text::{decimal, push_decimal};

verus! {

/// Why a protocol message could not be read.
#[derive(Debug, Clone, Copy, PartialEq, Eq, Structural)]
pub enum LspMsgError {
    ParsingFailed,
    IoFailed,
    Eof,
}

/// A protocol message, classified by the members of its JSON body.
#[derive(Debug)]
pub enum LspMessage {
    /// id, method, full json
    Result(i32, String, Json),
    /// id, method, full json
    Request(i32, String, Json),
    /// method, full json
    Notification(String, Json),
}

/// The mathematical value of an `LspMessage`.
pub enum MessageView {
    Result(i32, Seq<char>, JsonView),
    Request(i32, Seq<char>, JsonView),
    Notification(Seq<char>, JsonView),
}

impl View for LspMessage {
    type V = MessageView;

    open spec fn view(&self) -> MessageView {
        match self {
            LspMessage::Result(i, m, v) => MessageView::Result(*i, m@, v@),
            LspMessage::Request(i, m, v) => MessageView::Request(*i, m@, v@),
            LspMessage::Notification(m, v) => MessageView::Notification(m@, v@),
        }
    }
}

/// The JSON body of a message.
pub open spec fn message_body(m: MessageView) -> JsonView {
    match m {
        MessageView::Result(_, _, v) => v,
        MessageView::Request(_, _, v) => v,
        MessageView::Notification(_, v) => v,
    }
}

/// The method a body names: its `"method"` member when that is a
/// string, and the empty string otherwise.
pub open spec fn method_of(v: JsonView) -> Seq<char> {
    match json_get(v, "method"@) {
        Some(JsonView::Text(s)) => s,
        _ => Seq::empty(),
    }
}

/// How a JSON body is read as a message: without an `"id"` member it is
/// a notification; with an integer id in the range of `i32` it is a
/// result when it has a `"result"` member and a request otherwise; any
/// other id fails to parse.
pub open spec fn classify(v: JsonView) -> Result<MessageView, LspMsgError> {
    let method = method_of(v);
    match json_get(v, "id"@) {
        Some(JsonView::Number(n)) => match number_as_i64(n) {
            Some(i) => if i32::MIN <= i <= i32::MAX {
                if json_get(v, "result"@) is Some {
                    Ok(MessageView::Result(i as i32, method, v))
                } else {
                    Ok(MessageView::Request(i as i32, method, v))
                }
            } else {
                Err(LspMsgError::ParsingFailed)
            },
            None => Err(LspMsgError::ParsingFailed),
        },
        Some(_) => Err(LspMsgError::ParsingFailed),
        None => Ok(MessageView::Notification(method, v)),
    }
}

/// Merging two messages: two results, or two notifications, keep the
/// first message's id and method and merge their bodies; any other pair
/// leaves the first message as it is.
pub open spec fn merge_message(a: MessageView, b: MessageView) -> MessageView {
    match (a, b) {
        (MessageView::Result(i, m, x), MessageView::Result(_, _, y)) => MessageView::Result(
            i,
            m,
            merge_spec(x, y),
        ),
        (MessageView::Notification(m, x), MessageView::Notification(_, y)) => MessageView::Notification(
            m,
            merge_spec(x, y),
        ),
        _ => a,
    }
}

/// The framed form of a payload: the `Content-Length` header with the
/// payload's length in bytes (in UTF-8), an empty line, then the payload.
pub open spec fn framed(payload: Seq<char>) -> Seq<char> {
    "Content-Length: "@ + decimal(encode_utf8(payload).len()) + "\r\n\r\n"@ + payload
}

impl LspMessage {
    /// Reads a JSON body as a message (see `classify`).
    pub fn from_json(json_data: Json) -> (r: Result<LspMessage, LspMsgError>)
        ensures
            match r {
                Ok(m) => classify(json_data@) == Ok::<MessageView, LspMsgError>(m@),
                Err(e) => classify(json_data@) == Err::<MessageView, LspMsgError>(e),
            },
    {
        let method: String = match json_data.get("method") {
            Some(Json::Text(val)) => val.clone(),
            _ => String::new(),
        };
        let id: Option<Result<i32, LspMsgError>> = match json_data.get("id") {
            Some(Json::Number(number)) => match number.as_i64() {
                Some(ival) => if ival < -2147483648i64 || ival > 2147483647i64 {
                    Some(Err(LspMsgError::ParsingFailed))
                } else {
                    Some(Ok(ival as i32))
                },
                None => Some(Err(LspMsgError::ParsingFailed)),
            },
            Some(_) => Some(Err(LspMsgError::ParsingFailed)),
            None => None,
        };
        let has_result = json_data.get("result").is_some();
        match id {
            None => Ok(LspMessage::Notification(method, json_data)),
            Some(Err(e)) => Err(e),
            Some(Ok(id)) => if has_result {
                Ok(LspMessage::Result(id, method, json_data))
            } else {
                Ok(LspMessage::Request(id, method, json_data))
            },
        }
    }

    /// Merges `other` into this message (see `merge_message`).
    pub fn merge(&mut self, other: Self)
        ensures
            final(self)@ == merge_message(old(self)@, other@),
    {
        let mut me = LspMessage::Notification(String::new(), Json::Null);
        std::mem::swap(&mut me, self);
        *self = match me {
            LspMessage::Result(id, method, my_value) => match other {
                LspMessage::Result(_, _, other_value) => LspMessage::Result(
                    id,
                    method,
                    merge_json(my_value, other_value),
                ),
                _ => LspMessage::Result(id, method, my_value),
            },
            LspMessage::Notification(method, my_value) => match other {
                LspMessage::Notification(_, other_value) => LspMessage::Notification(
                    method,
                    merge_json(my_value, other_value),
                ),
                _ => LspMessage::Notification(method, my_value),
            },
            me => me,
        };
    }

    /// A copy of the message.
    pub fn deep_copy(&self) -> (r: LspMessage)
        ensures
            r@ == self@,
    {
        match self {
            LspMessage::Result(i, m, v) => LspMessage::Result(*i, m.clone(), v.deep_copy()),
            LspMessage::Request(i, m, v) => LspMessage::Request(*i, m.clone(), v.deep_copy()),
            LspMessage::Notification(m, v) => LspMessage::Notification(m.clone(), v.deep_copy()),
        }
    }

    /// The JSON body of the message.
    pub fn value(&self) -> (r: &Json)
        ensures
            r@ == message_body(self@),
    {
        match self {
            LspMessage::Result(_, _, v) => v,
            LspMessage::Request(_, _, v) => v,
            LspMessage::Notification(_, v) => v,
        }
    }

    /// Frames the message for the wire: the JSON text of its body, after a
    /// `Content-Length` header with the text's length in bytes and an
    /// empty line.
    pub fn format_with_header(&self) -> (r: String)
        ensures
            r@ == framed(json_text(message_body(self@))),
    {
        let payload = to_json_text(self.value());
        let length = payload.as_str().len();
        let mut out = String::from_str("Content-Length: ");
        push_decimal(&mut out, length);
        out.append("\r\n\r\n");
        out.append(payload.as_str());
        out
    }

    /// Reads a message from its payload: the payload is read as JSON text,
    /// then classified (see `classify`); bytes that are not JSON text fail
    /// to parse.
    pub fn message_from_payload(payload: &[u8]) -> (r: Result<LspMessage, LspMsgError>)
        ensures
            match json_parse(payload@) {
                None => r == Err::<LspMessage, LspMsgError>(LspMsgError::ParsingFailed),
                Some(v) => match r {
                    Ok(m) => classify(v) == Ok::<MessageView, LspMsgError>(m@),
                    Err(e) => classify(v) == Err::<MessageView, LspMsgError>(e),
                },
            },
    {
        match parse_json(payload) {
            Some(json_data) => LspMessage::from_json(json_data),
            None => Err(LspMsgError::ParsingFailed),
        }
    }
}

/// A body with an `"id"` member is never a notification, and a body
/// without one always is. An integer id in the range of `i32` makes a
/// result when the body has a `"result"` member and a request otherwise,
/// with that id, whatever its value.
pub proof fn law_id_decides_kind(v: JsonView, id: i32)
    ensures
        json_get(v, "id"@) is Some ==> !(classify(v) matches Ok(MessageView::Notification(_, _))),
        json_get(v, "id"@) is None ==> classify(v) == Ok::<MessageView, LspMsgError>(
            MessageView::Notification(method_of(v), v),
        ),
        json_get(v, "id"@) == Some(
            JsonView::Number(
                if id >= 0 {
                    crate::json::NumberView::PosInt(id as u64)
                } else {
                    crate::json::NumberView::NegInt(id as i64)
                },
            ),
        ) ==> classify(v) == Ok::<MessageView, LspMsgError>(
            if json_get(v, "result"@) is Some {
                MessageView::Result(id, method_of(v), v)
            } else {
                MessageView::Request(id, method_of(v), v)
            },
        ),
{
}

} // verus!
