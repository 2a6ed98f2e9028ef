//! JSON documents as `serde_json` reads and writes them.
//!
//! A parsed document is a `serde_json::Value`. What such a value holds is
//! described by the ghost type [`Json`]; the functions at the top of this
//! file state, without proof, what `serde_json`'s own functions return in
//! terms of it. Everything below them is verified against those statements.

use crate::views::inner_view;
use serde_json::Value;
use vstd::prelude::*;

verus! {

/// `serde_json::Value`: a parsed JSON value, taken as it is. What it holds
/// is known through [`json_of`] alone.
#[verifier::external_type_specification]
#[verifier::external_body]
pub struct ExValue(serde_json::Value);

/// A JSON number, as far as this library reads one.
pub enum JsonNumber {
    /// A non-negative integer that fits in 64 bits.
    Unsigned(u64),
    /// Any other number: negative, fractional or too large.
    Other,
}

/// The mathematical content of a JSON value.
pub enum Json {
    Null,
    Bool(bool),
    Number(JsonNumber),
    Text(Seq<char>),
    List(Seq<Json>),
    Object(Map<Seq<char>, Json>),
}

/// What a parsed value holds.
pub uninterp spec fn json_of(value: Value) -> Json;

/// The document that a byte string holds, if it is one well-formed JSON text.
pub uninterp spec fn json_document(bytes: Seq<u8>) -> Option<Json>;

/// A string as a JSON string literal: quoted, with escapes where JSON needs
/// them.
pub uninterp spec fn json_quoted(text: Seq<char>) -> Seq<char>;

/// What each of a list of parsed values holds.
pub open spec fn jsons_of(values: Seq<Value>) -> Seq<Json> {
    values.map_values(|v: Value| json_of(v))
}

/// `serde_json::from_slice` at type `Value`: reads a whole byte string as
/// one JSON document, and gives nothing where it is not one.
#[verifier::external_body]
pub(crate) fn parse(bytes: &[u8]) -> (r: Option<Value>)
    ensures
        match r {
            Some(v) => json_document(bytes@) == Some(json_of(v)),
            None => json_document(bytes@) is None,
        },
{
    serde_json::from_slice::<Value>(bytes).ok()
}

/// `Value::get` with a string index: the member of an object under `key`.
/// Nothing where the value is no object or has no such member.
#[verifier::external_body]
pub(crate) fn member<'a>(value: &'a Value, key: &str) -> (r: Option<&'a Value>)
    ensures
        match r {
            Some(found) => spec_member(json_of(*value), key@) == Some(json_of(*found)),
            None => spec_member(json_of(*value), key@) is None,
        },
{
    value.get(key)
}

/// `Value::as_str`: the text of a JSON string, nothing for any other value.
#[verifier::external_body]
pub(crate) fn as_str(value: &Value) -> (r: Option<&str>)
    ensures
        match r {
            Some(s) => json_of(*value) == Json::Text(s@),
            None => !(json_of(*value) is Text),
        },
{
    value.as_str()
}

/// `Value::as_u64`: a non-negative integer that fits in 64 bits, nothing for
/// any other value.
#[verifier::external_body]
pub(crate) fn as_u64(value: &Value) -> (r: Option<u64>)
    ensures
        match r {
            Some(n) => json_of(*value) == Json::Number(JsonNumber::Unsigned(n)),
            None => !(json_of(*value) matches Json::Number(JsonNumber::Unsigned(_))),
        },
{
    value.as_u64()
}

/// `Value::as_bool`: a JSON boolean, nothing for any other value.
#[verifier::external_body]
pub(crate) fn as_bool(value: &Value) -> (r: Option<bool>)
    ensures
        match r {
            Some(b) => json_of(*value) == Json::Bool(b),
            None => !(json_of(*value) is Bool),
        },
{
    value.as_bool()
}

/// `Value::is_null`: true for JSON's `null` only.
#[verifier::external_body]
pub(crate) fn is_null(value: &Value) -> (b: bool)
    ensures
        b == (json_of(*value) is Null),
{
    value.is_null()
}

/// `Value::as_array`: the elements of a JSON array, nothing for any other
/// value.
#[verifier::external_body]
pub(crate) fn as_array(value: &Value) -> (r: Option<&Vec<Value>>)
    ensures
        match r {
            Some(items) => json_of(*value) == Json::List(jsons_of(items@)),
            None => !(json_of(*value) is List),
        },
{
    value.as_array()
}

/// `serde_json::to_string` on a string: the string as a JSON string
/// literal. Writing a string into memory has no way to fail, so a result is
/// always there.
#[verifier::external_body]
pub(crate) fn quote(text: &str) -> (r: Option<String>)
    ensures
        match r {
            Some(s) => s@ == json_quoted(text@),
            None => false,
        },
{
    serde_json::to_string(text).ok()
}

/// The member of an object under `key`.
pub open spec fn spec_member(json: Json, key: Seq<char>) -> Option<Json> {
    match json {
        Json::Object(members) => if members.contains_key(key) {
            Some(members[key])
        } else {
            None
        },
        _ => None,
    }
}

/// A JSON string as text.
pub open spec fn spec_text(json: Json) -> Option<Seq<char>> {
    match json {
        Json::Text(s) => Some(s),
        _ => None,
    }
}

/// A JSON number as a count that fits the machine's word.
pub open spec fn spec_count(json: Json) -> Option<usize> {
    match json {
        Json::Number(JsonNumber::Unsigned(n)) => if n <= usize::MAX {
            Some(n as usize)
        } else {
            None
        },
        _ => None,
    }
}

/// A JSON boolean.
pub open spec fn spec_flag(json: Json) -> Option<bool> {
    match json {
        Json::Bool(b) => Some(b),
        _ => None,
    }
}

/// Reads a member that must be there: nothing where it is missing or where
/// `read` rejects it.
pub open spec fn required<T>(json: Json, key: Seq<char>, read: spec_fn(Json) -> Option<T>) -> Option<
    T,
> {
    match spec_member(json, key) {
        Some(found) => read(found),
        None => None,
    }
}

/// Reads a member that may be missing or `null`, which both count as absent.
/// Nothing where it is there and `read` rejects it.
pub open spec fn optional<T>(json: Json, key: Seq<char>, read: spec_fn(Json) -> Option<T>) -> Option<
    Option<T>,
> {
    match spec_member(json, key) {
        None => Some(None),
        Some(Json::Null) => Some(None),
        Some(found) => match read(found) {
            Some(x) => Some(Some(x)),
            None => None,
        },
    }
}

/// Reads a JSON string.
pub(crate) fn text(value: &Value) -> (r: Option<String>)
    ensures
        inner_view(r) == spec_text(json_of(*value)),
{
    match as_str(value) {
        Some(s) => Some(s.to_owned()),
        None => None,
    }
}

/// Reads a JSON number as a count.
pub(crate) fn count(value: &Value) -> (r: Option<usize>)
    ensures
        r == spec_count(json_of(*value)),
{
    match as_u64(value) {
        Some(n) => if n <= usize::MAX as u64 {
            Some(n as usize)
        } else {
            None
        },
        None => None,
    }
}

/// Reads a JSON boolean.
pub(crate) fn flag(value: &Value) -> (r: Option<bool>)
    ensures
        r == spec_flag(json_of(*value)),
{
    as_bool(value)
}

} // verus!
