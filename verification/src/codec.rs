use vstd::prelude::*;
use vstd::utf8::encode_utf8;

use serde_json::{Number, Value};

use crate::json::{Json, JsonNumber, JsonView, json_wf};

verus! {

#[verifier::external_type_specification]
#[verifier::external_body]
pub struct ExValue(serde_json::Value);

/// The JSON value that serde_json reads from `bytes`, or `None` when they
/// are not JSON text.
pub uninterp spec fn json_parse(bytes: Seq<u8>) -> Option<JsonView>;

/// The compact JSON text that serde_json writes for a value.
pub uninterp spec fn json_text(v: JsonView) -> Seq<char>;

/// Reads JSON text with `serde_json::from_slice::<Value>`. Its result
/// depends on the bytes alone; what it is is named, not stated. The
/// objects it builds are maps, so each holds a key at most once.
#[verifier::external_body]
pub(crate) fn parse_json(payload: &[u8]) -> (r: Option<Json>)
    ensures
        match r {
            Some(j) => json_parse(payload@) == Some(j@) && json_wf(j@),
            None => json_parse(payload@) is None,
        },
{
    match serde_json::from_slice::<Value>(payload) {
        Ok(v) => Some(from_value(v)),
        Err(_) => None,
    }
}

/// The library's form of a `serde_json::Value`, variant by variant; a
/// number becomes its integer kind, or its text.
#[verifier::external_body]
fn from_value(v: Value) -> Json {
    match v {
        Value::Null => Json::Null,
        Value::Bool(b) => Json::Bool(b),
        Value::Number(n) => Json::Number(match (n.as_u64(), n.as_i64()) {
            (Some(u), _) => JsonNumber::PosInt(u),
            (None, Some(i)) => JsonNumber::NegInt(i),
            (None, None) => JsonNumber::Float(n.to_string()),
        }),
        Value::String(s) => Json::Text(s),
        Value::Array(items) => Json::Array(items.into_iter().map(from_value).collect()),
        Value::Object(m) => Json::Object(m.into_iter().map(|(k, x)| (k, from_value(x))).collect()),
    }
}

/// Writes a value as compact JSON text with `serde_json::Value`'s
/// `Display`. The text depends on the value alone; what it is is named,
/// not stated. A `String` never holds more than `isize::MAX` bytes.
#[verifier::external_body]
pub(crate) fn to_json_text(j: &Json) -> (r: String)
    ensures
        r@ == json_text(j@),
        encode_utf8(r@).len() <= usize::MAX,
{
    to_value(j).to_string()
}

/// The `serde_json::Value` form of a library value, variant by variant; a
/// `Float` whose text serde_json cannot read as a number becomes `null`
/// (only values built by hand can hold one).
#[verifier::external_body]
fn to_value(j: &Json) -> Value {
    match j {
        Json::Null => Value::Null,
        Json::Bool(b) => Value::Bool(*b),
        Json::Number(JsonNumber::PosInt(u)) => Value::Number(Number::from(*u)),
        Json::Number(JsonNumber::NegInt(i)) => Value::Number(Number::from(*i)),
        Json::Number(JsonNumber::Float(t)) => t.parse::<Number>().map_or(Value::Null, Value::Number),
        Json::Text(s) => Value::String(s.clone()),
        Json::Array(items) => Value::Array(items.iter().map(to_value).collect()),
        Json::Object(m) => Value::Object(m.iter().map(|(k, x)| (k.clone(), to_value(x))).collect()),
    }
}

} // verus!
