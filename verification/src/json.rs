//! The JSON documents that the payloads hold, read through `serde_json`.
//!
//! A parsed document is a `serde_json::Value`. What the accessors of
//! `serde_json` hand back for a document is given a name here, and the
//! decoders of the records are stated over those names.

use vstd::prelude::*;
use serde::de::Error as FailureParts;
use serde_json::Error as JsonError;
use serde_json::Value;
use crate::Error;

verus! {

/// `serde_json::Error`: why a payload could not be decoded.
#[verifier::external_type_specification]
#[verifier::external_body]
pub struct ExJsonError(JsonError);

/// `serde_json::Value`: a parsed JSON document.
#[verifier::external_type_specification]
#[verifier::external_body]
pub struct ExValue(Value);

/// The document that `serde_json::from_slice` reads from `bytes`, or `None`
/// where the bytes are no JSON text.
pub uninterp spec fn json_parse(bytes: Seq<u8>) -> Option<Value>;

/// The member `key` of the object `v`, as `Value::get` finds it: `None`
/// where `v` is no object or has no such member.
pub uninterp spec fn json_member(v: Value, key: Seq<char>) -> Option<Value>;

/// The number `v` as `Value::as_u64` reads it: `None` where `v` is no
/// number, or a number that `serde_json` does not hold as an unsigned
/// integer of 64 bits.
pub uninterp spec fn json_u64(v: Value) -> Option<u64>;

/// The truth value `v` as `Value::as_bool` reads it: `None` where `v` is
/// neither `true` nor `false`.
pub uninterp spec fn json_bool(v: Value) -> Option<bool>;

/// The characters of the string `v` as `Value::as_str` reads it: `None`
/// where `v` is no string.
pub uninterp spec fn json_text(v: Value) -> Option<Seq<char>>;

/// The items of the array `v` as `Value::as_array` reads it: `None` where
/// `v` is no array.
pub uninterp spec fn json_items(v: Value) -> Option<Seq<Value>>;

/// The text with which `serde_json` describes the failure `e`.
pub uninterp spec fn json_error_text(e: JsonError) -> Seq<char>;

/// `ToString::to_string` for `serde_json::Error`: the failure as the crate
/// words it. The wording depends on the failure alone and is named
/// [`json_error_text`].
#[verifier::external_body]
pub(crate) fn to_string(e: &JsonError) -> (r: String)
    ensures
        r@ == json_error_text(*e),
{
    e.to_string()
}

/// `serde_json::from_slice`, reading a whole document. Its outcome depends
/// on the bytes alone and is named [`json_parse`].
#[verifier::external_body]
pub(crate) fn from_slice(bytes: &[u8]) -> (r: Result<Value, JsonError>)
    ensures
        match r {
            Ok(v) => json_parse(bytes@) == Some(v),
            Err(_) => json_parse(bytes@) is None,
        },
{
    serde_json::from_slice::<Value>(bytes)
}

/// `Value::get` with a member's name. For an object it looks the name up;
/// for any other document it finds nothing.
#[verifier::external_body]
pub(crate) fn get<'a>(v: &'a Value, key: &str) -> (r: Option<&'a Value>)
    ensures
        match r {
            Some(member) => json_member(*v, key@) == Some(*member),
            None => json_member(*v, key@) is None,
        },
{
    v.get(key)
}

/// `Value::as_u64`: the number, where the document is one that fits `u64`.
#[verifier::external_body]
pub(crate) fn as_u64(v: &Value) -> (r: Option<u64>)
    ensures
        r == json_u64(*v),
{
    v.as_u64()
}

/// `Value::as_bool`: the truth value, where the document is one.
#[verifier::external_body]
pub(crate) fn as_bool(v: &Value) -> (r: Option<bool>)
    ensures
        r == json_bool(*v),
{
    v.as_bool()
}

/// `Value::as_str`: the string, where the document is one.
#[verifier::external_body]
pub(crate) fn as_str<'a>(v: &'a Value) -> (r: Option<&'a str>)
    ensures
        match r {
            Some(text) => json_text(*v) == Some(text@),
            None => json_text(*v) is None,
        },
{
    v.as_str()
}

/// `Value::as_array`: the items, where the document is an array.
#[verifier::external_body]
pub(crate) fn as_array<'a>(v: &'a Value) -> (r: Option<&'a Vec<Value>>)
    ensures
        match r {
            Some(items) => json_items(*v) == Some(items@),
            None => json_items(*v) is None,
        },
{
    v.as_array()
}

/// `serde::de::Error::custom` for `serde_json::Error`: a decode failure
/// that carries `message`. Nothing is stated of the error it makes.
#[verifier::external_body]
pub(crate) fn custom(message: &str) -> JsonError {
    <JsonError as FailureParts>::custom(message)
}

/// The decode failure for a member that is missing or of the wrong kind.
pub(crate) fn mismatch(key: &str, expected: &str) -> (r: Error)
    ensures
        r is DecodeError,
{
    let mut message = "member `".to_owned();
    message.append(key);
    message.append("`: expected ");
    message.append(expected);
    Error::DecodeError(custom(message.as_str()))
}

/// The decoder's entry: parses a payload that has passed the guard. The
/// API's empty object is never handed to it.
pub(crate) fn document(bytes: &[u8]) -> (r: Result<Value, Error>)
    requires
        bytes@ != crate::empty_object(),
    ensures
        match r {
            Ok(v) => json_parse(bytes@) == Some(v),
            Err(e) => e is DecodeError && json_parse(bytes@) is None,
        },
{
    match from_slice(bytes) {
        Ok(v) => Ok(v),
        Err(e) => Err(Error::from(e)),
    }
}

/// The number that the member `key` of `v` holds.
pub open spec fn member_u64(v: Value, key: Seq<char>) -> Option<u64> {
    match json_member(v, key) {
        Some(member) => json_u64(member),
        None => None,
    }
}

/// The truth value that the member `key` of `v` holds.
pub open spec fn member_bool(v: Value, key: Seq<char>) -> Option<bool> {
    match json_member(v, key) {
        Some(member) => json_bool(member),
        None => None,
    }
}

/// The characters of the string that the member `key` of `v` holds.
pub open spec fn member_text(v: Value, key: Seq<char>) -> Option<Seq<char>> {
    match json_member(v, key) {
        Some(member) => json_text(member),
        None => None,
    }
}

/// Reads the member `key` of `v`; fails where `v` has none.
pub fn field<'a>(v: &'a Value, key: &str) -> (r: Result<&'a Value, Error>)
    ensures
        match r {
            Ok(member) => json_member(*v, key@) == Some(*member),
            Err(e) => e is DecodeError && json_member(*v, key@) is None,
        },
{
    match get(v, key) {
        Some(member) => Ok(member),
        None => Err(mismatch(key, "a value")),
    }
}

/// Reads the member `key` of `v` as a `u64`; fails where `v` has no such
/// member or the member is no such number.
pub fn u64_field(v: &Value, key: &str) -> (r: Result<u64, Error>)
    ensures
        match r {
            Ok(n) => member_u64(*v, key@) == Some(n),
            Err(e) => e is DecodeError && member_u64(*v, key@) is None,
        },
{
    let member = field(v, key)?;
    match as_u64(member) {
        Some(n) => Ok(n),
        None => Err(mismatch(key, "an unsigned integer")),
    }
}

/// Reads the member `key` of `v` as a `bool`; fails where `v` has no such
/// member or the member is no truth value.
pub fn bool_field(v: &Value, key: &str) -> (r: Result<bool, Error>)
    ensures
        match r {
            Ok(b) => member_bool(*v, key@) == Some(b),
            Err(e) => e is DecodeError && member_bool(*v, key@) is None,
        },
{
    let member = field(v, key)?;
    match as_bool(member) {
        Some(b) => Ok(b),
        None => Err(mismatch(key, "a boolean")),
    }
}

/// Reads the member `key` of `v` as a string; fails where `v` has no such
/// member or the member is no string.
pub fn text_field(v: &Value, key: &str) -> (r: Result<String, Error>)
    ensures
        match r {
            Ok(text) => member_text(*v, key@) == Some(text@),
            Err(e) => e is DecodeError && member_text(*v, key@) is None,
        },
{
    let member = field(v, key)?;
    match as_str(member) {
        Some(text) => Ok(text.to_owned()),
        None => Err(mismatch(key, "a string")),
    }
}

} // verus!
