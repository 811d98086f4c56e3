use lsplex::json::{merge_json, Json, JsonNumber};
use serde_json::{Number, Value};

fn to_json(value: Value) -> Json {
    match value {
        Value::Null => Json::Null,
        Value::Bool(b) => Json::Bool(b),
        Value::Number(n) => Json::Number(if let Some(u) = n.as_u64() {
            JsonNumber::PosInt(u)
        } else if let Some(i) = n.as_i64() {
            JsonNumber::NegInt(i)
        } else {
            JsonNumber::Float(n.to_string())
        }),
        Value::String(s) => Json::Text(s),
        Value::Array(items) => Json::Array(items.into_iter().map(to_json).collect()),
        Value::Object(m) => Json::Object(m.into_iter().map(|(k, v)| (k, to_json(v))).collect()),
    }
}

fn to_value(json: &Json) -> Value {
    match json {
        Json::Null => Value::Null,
        Json::Bool(b) => Value::Bool(*b),
        Json::Number(JsonNumber::PosInt(u)) => Value::Number(Number::from(*u)),
        Json::Number(JsonNumber::NegInt(i)) => Value::Number(Number::from(*i)),
        Json::Number(JsonNumber::Float(t)) => Value::Number(t.parse::<Number>().unwrap()),
        Json::Text(s) => Value::String(s.clone()),
        Json::Array(items) => Value::Array(items.iter().map(to_value).collect()),
        Json::Object(members) => {
            let mut m = serde_json::Map::new();
            for (k, v) in members {
                m.insert(k.clone(), to_value(v));
            }
            Value::Object(m)
        }
    }
}

fn json(text: &str) -> Json {
    to_json(serde_json::from_str(text).unwrap())
}

fn value(text: &str) -> Value {
    serde_json::from_str(text).unwrap()
}

fn merged(a: &str, b: &str) -> Value {
    to_value(&merge_json(json(a), json(b)))
}

#[test]
fn merge_objects_key_by_key() {
    assert_eq!(
        merged(r#"{"a": 1, "b": {"x": 1}}"#, r#"{"b": {"y": 2}, "c": 3}"#),
        value(r#"{"a": 1, "b": {"x": 1, "y": 2}, "c": 3}"#)
    );
}

#[test]
fn merge_arrays_concatenates() {
    assert_eq!(merged("[1, 2]", "[3]"), value("[1, 2, 3]"));
    assert_eq!(
        merged(r#"{"items": [1]}"#, r#"{"items": [2, 3]}"#),
        value(r#"{"items": [1, 2, 3]}"#)
    );
}

#[test]
fn merge_second_value_wins() {
    assert_eq!(merged("1", "2"), value("2"));
    assert_eq!(merged(r#"{"a": 1}"#, "[1]"), value("[1]"));
    assert_eq!(merged("[1]", r#"{"a": 1}"#), value(r#"{"a": 1}"#));
    assert_eq!(merged(r#"{"a": "x"}"#, r#"{"a": null}"#), value(r#"{"a": null}"#));
    assert_eq!(merged("null", r#"{"a": 1}"#), value(r#"{"a": 1}"#));
    assert_eq!(merged(r#""s""#, "true"), value("true"));
}

#[test]
fn merge_keeps_first_only_members() {
    assert_eq!(
        merged(r#"{"a": {"b": [1], "c": 2}}"#, r#"{"a": {"b": [2]}}"#),
        value(r#"{"a": {"b": [1, 2], "c": 2}}"#)
    );
}

#[test]
fn merge_float_numbers() {
    assert_eq!(merged("1", "2.5"), value("2.5"));
}

#[test]
fn get_member() {
    let j = json(r#"{"method": "m", "id": 3}"#);
    assert_eq!(to_value(j.get("method").unwrap()), value(r#""m""#));
    assert!(j.get("missing").is_none());
    assert!(json("[1]").get("method").is_none());
}

#[test]
fn number_as_i64() {
    assert_eq!(JsonNumber::PosInt(5).as_i64(), Some(5));
    assert_eq!(JsonNumber::PosInt(u64::MAX).as_i64(), None);
    assert_eq!(JsonNumber::PosInt(i64::MAX as u64).as_i64(), Some(i64::MAX));
    assert_eq!(JsonNumber::NegInt(-7).as_i64(), Some(-7));
    assert_eq!(JsonNumber::Float("1.5".to_string()).as_i64(), None);
}

#[test]
fn deep_copy_is_equal() {
    let j = json(r#"{"a": [1, {"b": -2}], "c": "d", "e": 0.5}"#);
    assert_eq!(to_value(&j.deep_copy()), to_value(&j));
}

#[test]
fn merge_with_empty_changes_nothing() {
    let o = r#"{"a": [1], "b": {"c": null}}"#;
    assert_eq!(merged("{}", o), value(o));
    assert_eq!(merged(o, "{}"), value(o));
    assert_eq!(merged("[]", "[1, [2]]"), value("[1, [2]]"));
    assert_eq!(merged("[1, [2]]", "[]"), value("[1, [2]]"));
}
