//! Reading and writing JSON text, done by `serde_json`.

use vstd::prelude::*;
use serde_json::Value;
use crate::json::{Json, JsonNumber, JsonV, jv};

verus! {

#[verifier::external_type_specification]
#[verifier::external_body]
pub struct ExValue(serde_json::Value);

/// The JSON value that a `serde_json::Value` holds, in mathematical form
/// (an object's members in the order its map keeps them).
pub uninterp spec fn value_model(v: serde_json::Value) -> JsonV;

/// The value that `serde_json::from_str::<Value>` reads from `text`, or
/// `None` when it rejects the text.
pub uninterp spec fn json_parsed(text: Seq<char>) -> Option<JsonV>;

/// The `Display` text of the error that `serde_json::from_str::<Value>`
/// gives for text it rejects (what is wrong, with line and column).
pub uninterp spec fn json_parse_error(text: Seq<char>) -> Seq<char>;

/// What a `serde_json::Value` holds once built from `j`, each object's
/// members inserted in turn into a `serde_json::Map` (which keeps one
/// member per name, in its own order).
pub uninterp spec fn value_built(j: JsonV) -> JsonV;

/// The text that `serde_json::to_string` writes for a value holding `v`.
pub uninterp spec fn json_text(v: JsonV) -> Seq<char>;

/// `serde_json::from_str::<Value>(text)`, the error as its `Display`
/// text. Claimed: it succeeds exactly when `json_parsed` gives a value,
/// and then holds that value; an error reads `json_parse_error` of the
/// text.
#[verifier::external_body]
fn parse_value(text: &str) -> (r: Result<Value, String>)
    ensures
        r is Ok <==> json_parsed(text@) is Some,
        r matches Ok(v) ==> json_parsed(text@) == Some(value_model(v)),
        r matches Err(e) ==> e@ == json_parse_error(text@),
{
    serde_json::from_str(text).map_err(|e| e.to_string())
}

/// A `serde_json::Value` as a `Json`, variant by variant (a number as an
/// unsigned, a negative or another number, by `as_u64` and `as_i64`).
/// Claimed: the result holds what the value holds.
#[verifier::external_body]
fn json_of_value(v: Value) -> (r: Json)
    ensures
        jv(r) == value_model(v),
{
    match v {
        Value::Null => Json::Null,
        Value::Bool(b) => Json::Bool(b),
        Value::Number(n) => Json::Number(match (n.as_u64(), n.as_i64()) {
            (Some(u), _) => JsonNumber::PosInt(u),
            (None, Some(i)) => JsonNumber::NegInt(i),
            _ => JsonNumber::Float(n.to_string()),
        }),
        Value::String(s) => Json::String(s),
        Value::Array(a) => Json::Array(a.into_iter().map(json_of_value).collect()),
        Value::Object(m) => Json::Object(m.into_iter().map(|(k, x)| (k, json_of_value(x))).collect()),
    }
}

/// A `Json` as a `serde_json::Value`, variant by variant; an object's
/// members are collected into a `serde_json::Map`, a number written as
/// text is read back by `Number::from_str` (`Null` if it is not a
/// number). Claimed: the result holds `value_built` of the value.
#[verifier::external_body]
fn value_of_json(j: Json) -> (r: Value)
    ensures
        value_model(r) == value_built(jv(j)),
{
    match j {
        Json::Null => Value::Null,
        Json::Bool(b) => Value::Bool(b),
        Json::Number(JsonNumber::PosInt(u)) => Value::from(u),
        Json::Number(JsonNumber::NegInt(i)) => Value::from(i),
        Json::Number(JsonNumber::Float(t)) => t.parse().map(Value::Number).unwrap_or(Value::Null),
        Json::String(s) => Value::String(s),
        Json::Array(a) => Value::Array(a.into_iter().map(value_of_json).collect()),
        Json::Object(m) => Value::Object(m.into_iter().map(|(k, x)| (k, value_of_json(x))).collect()),
    }
}

/// `serde_json::to_string(v)`, which cannot fail for a `Value` (its map
/// keys are strings). Claimed: the text is `json_text` of what it holds.
#[verifier::external_body]
fn value_text(v: &Value) -> (r: String)
    ensures
        r@ == json_text(value_model(*v)),
{
    serde_json::to_string(v).unwrap_or_default()
}

/// Parses JSON text; `Err` carries the parser's message.
pub fn parse_json(text: &str) -> (r: Result<Json, String>)
    ensures
        r is Ok <==> json_parsed(text@) is Some,
        r matches Ok(v) ==> json_parsed(text@) == Some(jv(v)),
        r matches Err(e) ==> e@ == json_parse_error(text@),
{
    match parse_value(text) {
        Ok(v) => Ok(json_of_value(v)),
        Err(e) => Err(e),
    }
}

/// The JSON text of a value, as `serde_json` writes it.
pub fn json_to_text(j: Json) -> (r: String)
    ensures
        r@ == json_text(value_built(jv(j))),
{
    let v = value_of_json(j);
    value_text(&v)
}

} // verus!
