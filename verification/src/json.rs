//! JSON values, their text, and the fields the plugin reads and writes.

use vstd::prelude::*;
use serde_json::Value;
use vstd::utf8::{decode_utf8, valid_utf8};
use crate::error::PdkError;
use crate::text::{decode, rejects};

verus! {

/// `serde_json::Value`: any JSON value. Nothing inside it is visible here;
/// it is carried between the caller and the serializer.
#[verifier::external_type_specification]
#[verifier::external_body]
pub struct ExValue(serde_json::Value);

/// `serde_json::Error`: why serializing or parsing failed. Only its message
/// is read.
#[verifier::external_type_specification]
#[verifier::external_body]
pub struct ExJsonError(serde_json::Error);

/// The JSON text of `value`; where it cannot be serialized, the message of
/// the error that says why.
pub uninterp spec fn json_text(value: serde_json::Value) -> Result<Seq<char>, Seq<char>>;

/// The value that `text` parses to; where it is not JSON, the message of the
/// error that says why.
pub uninterp spec fn json_parse(text: Seq<char>) -> Result<serde_json::Value, Seq<char>>;

/// The message of a JSON error.
pub uninterp spec fn json_error_text(error: serde_json::Error) -> Seq<char>;

/// The member `key` of `value`; nothing where `value` is no object or has no
/// such member.
pub uninterp spec fn json_member(value: serde_json::Value, key: Seq<char>) -> Option<
    serde_json::Value,
>;

/// The text of `value` where it is a JSON string; nothing where it is not.
pub uninterp spec fn json_string(value: serde_json::Value) -> Option<Seq<char>>;

/// The JSON string that holds `text`.
pub uninterp spec fn json_of_string(text: Seq<char>) -> serde_json::Value;

/// The JSON object whose one member `key` is `member`.
pub uninterp spec fn json_object(key: Seq<char>, member: serde_json::Value) -> serde_json::Value;

/// `serde_json::to_string`: the compact JSON text of `value`, or an error
/// where it cannot be serialized. The same value always gives the same
/// outcome, which `json_text` names.
#[verifier::external_body]
fn to_text(value: &Value) -> (r: Result<String, serde_json::Error>)
    ensures
        match r {
            Ok(s) => json_text(*value) == Ok::<Seq<char>, Seq<char>>(s@),
            Err(e) => json_text(*value) == Err::<Seq<char>, Seq<char>>(json_error_text(e)),
        },
{
    serde_json::to_string(value)
}

/// `serde_json::from_str`, at the type `Value`: the value that `text` holds,
/// or an error where it is not JSON. The same text always gives the same
/// outcome, which `json_parse` names.
#[verifier::external_body]
fn parse(text: &str) -> (r: Result<Value, serde_json::Error>)
    ensures
        match r {
            Ok(v) => json_parse(text@) == Ok::<Value, Seq<char>>(v),
            Err(e) => json_parse(text@) == Err::<Value, Seq<char>>(json_error_text(e)),
        },
{
    serde_json::from_str::<Value>(text)
}

/// The `Display` text of a `serde_json::Error`, which `json_error_text`
/// names.
#[verifier::external_body]
fn error_text(error: &serde_json::Error) -> (s: String)
    ensures
        s@ == json_error_text(*error),
{
    error.to_string()
}

/// `Value::get` with a string index: a copy of the member `key` of an
/// object, which `json_member` names.
#[verifier::external_body]
fn get_member(value: &Value, key: &str) -> (r: Option<Value>)
    ensures
        r == json_member(*value, key@),
{
    value.get(key).cloned()
}

/// `Value::as_str`: the text of a JSON string, which `json_string` names.
#[verifier::external_body]
fn get_string(value: &Value) -> (r: Option<String>)
    ensures
        match r {
            Some(s) => json_string(*value) == Some(s@),
            None => json_string(*value) is None,
        },
{
    match value.as_str() {
        Some(s) => Some(s.to_owned()),
        None => None,
    }
}

/// `Value::from` on a string: the JSON string that holds `text`, which
/// `json_of_string` names.
#[verifier::external_body]
fn make_string(text: &str) -> (r: Value)
    ensures
        r == json_of_string(text@),
{
    Value::from(text)
}

/// `Value::from_iter` on pairs of a key and a value, here on one pair: the
/// object whose one member `key` is `member`, which `json_object` names.
#[verifier::external_body]
fn make_object(key: &str, member: Value) -> (r: Value)
    ensures
        r == json_object(key@, member),
{
    Value::from_iter(std::iter::once((key, member)))
}

/// What an attempt to serialize comes to: the text, or the error's message
/// as an encoding error.
pub fn encoded(r: Result<String, serde_json::Error>) -> (out: Result<String, PdkError>)
    ensures
        match r {
            Ok(s) => out == Ok::<String, PdkError>(s),
            Err(e) => out matches Err(PdkError::Encode(m)) && m@ == json_error_text(e),
        },
{
    match r {
        Ok(s) => Ok(s),
        Err(e) => Err(PdkError::Encode(error_text(&e))),
    }
}

/// What an attempt to parse comes to: the value, or the error's message as
/// a decoding error.
pub fn decoded(r: Result<Value, serde_json::Error>) -> (out: Result<Value, PdkError>)
    ensures
        match r {
            Ok(v) => out == Ok::<Value, PdkError>(v),
            Err(e) => out matches Err(PdkError::Decode(m)) && m@ == json_error_text(e),
        },
{
    match r {
        Ok(v) => Ok(v),
        Err(e) => Err(PdkError::Decode(error_text(&e))),
    }
}

/// The JSON text of `value`.
pub fn encode(value: &Value) -> (out: Result<String, PdkError>)
    ensures
        match json_text(*value) {
            Ok(t) => out matches Ok(s) && s@ == t,
            Err(why) => out matches Err(PdkError::Encode(m)) && m@ == why,
        },
{
    encoded(to_text(value))
}

/// The value that `text` holds.
pub fn decode_json(text: &str) -> (out: Result<Value, PdkError>)
    ensures
        match json_parse(text@) {
            Ok(v) => out == Ok::<Value, PdkError>(v),
            Err(why) => out matches Err(PdkError::Decode(m)) && m@ == why,
        },
{
    decoded(parse(text))
}

/// What `bytes` hold as JSON: the value that their text parses to; an error
/// where they are not UTF-8 or their text is not JSON.
pub fn from_bytes(bytes: Vec<u8>) -> (out: Result<Value, PdkError>)
    ensures
        !valid_utf8(bytes@) ==> rejects(out, bytes@),
        valid_utf8(bytes@) ==> match json_parse(decode_utf8(bytes@)) {
            Ok(v) => out == Ok::<Value, PdkError>(v),
            Err(why) => out matches Err(PdkError::Decode(m)) && m@ == why,
        },
{
    match decode(bytes) {
        Ok(s) => decode_json(s.as_str()),
        Err(e) => Err(e),
    }
}

/// The text of the member `key` of `value`, where there is such a member and
/// it is a string.
pub open spec fn string_member(value: Value, key: Seq<char>) -> Option<Seq<char>> {
    match json_member(value, key) {
        Some(m) => json_string(m),
        None => None,
    }
}

/// The text of the member `key` of `value`, where there is such a member and
/// it is a string.
pub fn string_field(value: &Value, key: &str) -> (r: Option<String>)
    ensures
        match r {
            Some(s) => string_member(*value, key@) == Some(s@),
            None => string_member(*value, key@) is None,
        },
{
    match get_member(value, key) {
        Some(m) => get_string(&m),
        None => None,
    }
}

/// The object whose one member `key` is the JSON string `text`.
pub fn record(key: &str, text: &str) -> (r: Value)
    ensures
        r == json_object(key@, json_of_string(text@)),
{
    make_object(key, make_string(text))
}

} // verus!
