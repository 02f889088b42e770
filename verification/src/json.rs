//! The JSON value type of serde_json, carried through the library unopened.

use vstd::prelude::*;

verus! {

/// serde_json's dynamically typed JSON value.
#[verifier::external_type_specification]
#[verifier::external_body]
pub struct ExJsonValue(serde_json::Value);

/// The JSON value that `text` holds, `None` when it is not valid JSON:
/// what serde_json's `from_str` into a `Value` gives, a function of the
/// text alone.
pub uninterp spec fn json_parsed(text: Seq<char>) -> Option<serde_json::Value>;

/// The JSON string value holding `text` (serde_json's `Value::String`).
pub uninterp spec fn json_string(text: Seq<char>) -> serde_json::Value;

/// `serde_json::from_str` into a `serde_json::Value`, its error mapped to
/// `None`: the result is `json_parsed` of the text.
#[verifier::external_body]
pub(crate) fn parse_json(text: &str) -> (r: Option<serde_json::Value>)
    ensures
        r == json_parsed(text@),
{
    serde_json::from_str::<serde_json::Value>(text).ok()
}

/// `serde_json::Value::String` of a copy of `text`: the result is
/// `json_string` of the text.
#[verifier::external_body]
pub(crate) fn string_value(text: &str) -> (r: serde_json::Value)
    ensures
        r == json_string(text@),
{
    serde_json::Value::String(text.to_string())
}

/// The integer member `key` of a JSON value: serde_json's `Value::get`
/// with the key, then `as_i64`; `None` when the value is no object, has no
/// such member, or the member is not an integer that fits an `i64`.
pub uninterp spec fn json_i64_member(v: serde_json::Value, key: Seq<char>) -> Option<i64>;

/// The text member `key` of a JSON value: serde_json's `Value::get` with
/// the key, then `as_str`; `None` when there is no such text member.
pub uninterp spec fn json_str_member(v: serde_json::Value, key: Seq<char>) -> Option<Seq<char>>;

/// serde_json's `Value::get(key)` then `Value::as_i64`: the result is
/// `json_i64_member` of the value and the key.
#[verifier::external_body]
pub(crate) fn i64_member(v: &serde_json::Value, key: &str) -> (r: Option<i64>)
    ensures
        r == json_i64_member(*v, key@),
{
    match v.get(key) {
        Some(m) => m.as_i64(),
        None => None,
    }
}

/// serde_json's `Value::get(key)` then `Value::as_str`, copied into a
/// `String`: the result is `json_str_member` of the value and the key.
#[verifier::external_body]
pub(crate) fn str_member(v: &serde_json::Value, key: &str) -> (r: Option<String>)
    ensures
        match r {
            Some(s) => json_str_member(*v, key@) == Some(s@),
            None => json_str_member(*v, key@) is None,
        },
{
    match v.get(key) {
        Some(m) => match m.as_str() {
            Some(s) => Some(s.to_string()),
            None => None,
        },
        None => None,
    }
}

/// The member `key` of a JSON value: what serde_json's `Value::get` with
/// the key gives, `None` when the value is no object or has no such member.
pub uninterp spec fn json_member(v: serde_json::Value, key: Seq<char>) -> Option<serde_json::Value>;

/// serde_json's `Value::get(key)`: the result is `json_member` of the
/// value and the key.
#[verifier::external_body]
fn member<'a>(v: &'a serde_json::Value, key: &str) -> (r: Option<&'a serde_json::Value>)
    ensures
        match r {
            Some(m) => json_member(*v, key@) == Some(*m),
            None => json_member(*v, key@) is None,
        },
{
    v.get(key)
}

/// The payload of a server message: its `data` member when it has one,
/// else the message itself.
pub fn payload(message: &serde_json::Value) -> (r: &serde_json::Value)
    ensures
        *r == match json_member(*message, "data"@) {
            Some(d) => d,
            None => *message,
        },
{
    proof {
        reveal_strlit("data");
    }
    match member(message, "data") {
        Some(d) => d,
        None => message,
    }
}

/// The text member `key` of a payload, if it has one.
pub fn text_member(data: &serde_json::Value, key: &str) -> (r: Option<String>)
    ensures
        match r {
            Some(t) => json_str_member(*data, key@) == Some(t@),
            None => json_str_member(*data, key@) is None,
        },
{
    str_member(data, key)
}

/// The text member `key` of a payload, empty when there is none.
pub fn text_field(data: &serde_json::Value, key: &str) -> (r: String)
    ensures
        r@ == match json_str_member(*data, key@) {
            Some(t) => t,
            None => Seq::<char>::empty(),
        },
{
    match str_member(data, key) {
        Some(t) => t,
        None => String::new(),
    }
}

/// The integer member `key` of a payload.
pub fn int_field(data: &serde_json::Value, key: &str) -> (r: Option<i64>)
    ensures
        r == json_i64_member(*data, key@),
{
    i64_member(data, key)
}

/// The array member `key` of a JSON value: serde_json's `Value::get` with the
/// key, then `as_array`; `None` when there is no such array member.
pub uninterp spec fn json_array_member(v: serde_json::Value, key: Seq<char>) -> Option<Seq<serde_json::Value>>;

/// The text of a JSON value: serde_json's `Value::as_str`; `None` when the
/// value is no JSON string.
pub uninterp spec fn json_text(v: serde_json::Value) -> Option<Seq<char>>;

/// Whether a JSON value is an object: serde_json's `Value::is_object`.
pub uninterp spec fn json_is_object(v: serde_json::Value) -> bool;

/// serde_json's `Value::get(key)` then `Value::as_array`, cloned into a
/// `Vec`: the result is `json_array_member` of the value and the key.
#[verifier::external_body]
pub(crate) fn array_member(v: &serde_json::Value, key: &str) -> (r: Option<Vec<serde_json::Value>>)
    ensures
        match r {
            Some(a) => json_array_member(*v, key@) == Some(a@),
            None => json_array_member(*v, key@) is None,
        },
{
    match v.get(key) {
        Some(m) => m.as_array().cloned(),
        None => None,
    }
}

/// serde_json's `Value::as_str`, copied into a `String`: the result is
/// `json_text` of the value.
#[verifier::external_body]
pub(crate) fn as_text(v: &serde_json::Value) -> (r: Option<String>)
    ensures
        match r {
            Some(t) => json_text(*v) == Some(t@),
            None => json_text(*v) is None,
        },
{
    match v.as_str() {
        Some(t) => Some(t.to_string()),
        None => None,
    }
}

/// serde_json's `Value::is_object`: the result is `json_is_object` of the value.
#[verifier::external_body]
pub(crate) fn is_object(v: &serde_json::Value) -> (r: bool)
    ensures
        r == json_is_object(*v),
{
    v.is_object()
}

} // verus!
