//! Reading response bodies and writing request bodies.

use crate::error::{Error, ErrorView};
use crate::json::{
    as_array, count, flag, is_null, json_document, json_of, json_quoted, jsons_of, member, optional,
    parse, quote, required, spec_count, spec_flag, spec_member, spec_text, text, Json,
};
use crate::views::{inner_view, optional_views, views};
use serde_json::Value;
use vstd::prelude::*;

verus! {

/// A type that can be read from a JSON value.
pub trait FromJson: View + Sized {
    /// What a JSON value decodes to, if it has the shape of this type.
    spec fn decoded(json: Json) -> Option<Self::V>;

    /// Reads a parsed value. Nothing where it does not have the shape of
    /// this type.
    fn from_json(value: &Value) -> (r: Option<Self>)
        ensures
            match r {
                Some(x) => Self::decoded(json_of(*value)) == Some(x@),
                None => Self::decoded(json_of(*value)) is None,
            },
    ;
}

impl FromJson for String {
    open spec fn decoded(json: Json) -> Option<Seq<char>> {
        spec_text(json)
    }

    fn from_json(value: &Value) -> (r: Option<String>) {
        text(value)
    }
}

impl FromJson for usize {
    open spec fn decoded(json: Json) -> Option<usize> {
        spec_count(json)
    }

    fn from_json(value: &Value) -> (r: Option<usize>) {
        count(value)
    }
}

impl FromJson for bool {
    open spec fn decoded(json: Json) -> Option<bool> {
        spec_flag(json)
    }

    fn from_json(value: &Value) -> (r: Option<bool>) {
        flag(value)
    }
}

/// Reads the member under `key`, which must be there.
pub fn required_member<T: FromJson>(value: &Value, key: &str) -> (r: Option<T>)
    ensures
        match r {
            Some(x) => required(json_of(*value), key@, |j: Json| T::decoded(j)) == Some(x@),
            None => required(json_of(*value), key@, |j: Json| T::decoded(j)) is None,
        },
{
    T::from_json(member(value, key)?)
}

/// Reads the member under `key`, which may be missing or `null`.
pub fn optional_member<T: FromJson>(value: &Value, key: &str) -> (r: Option<Option<T>>)
    ensures
        match r {
            Some(x) => optional(json_of(*value), key@, |j: Json| T::decoded(j)) == Some(
                inner_view(x),
            ),
            None => optional(json_of(*value), key@, |j: Json| T::decoded(j)) is None,
        },
{
    match member(value, key) {
        None => Some(None),
        Some(found) => if is_null(found) {
            Some(None)
        } else {
            match T::from_json(found) {
                Some(x) => Some(Some(x)),
                None => None,
            }
        },
    }
}

/// What was read from a body, or the body itself as the failure where
/// nothing could be read from it.
pub fn found_or_codec<T>(body: Vec<u8>, read: Option<T>) -> (r: Result<T, Error>)
    ensures
        match read {
            Some(x) => r == Ok::<T, Error>(x),
            None => r matches Err(e) && e@ == (ErrorView::Codec { raw: body@ }),
        },
{
    match read {
        Some(x) => Ok(x),
        None => Err(Error::Codec { raw: body }),
    }
}

/// What a body decodes to: it has to be a JSON document of the shape of `T`.
pub open spec fn decoded_body<T: FromJson>(body: Seq<u8>) -> Option<T::V> {
    match json_document(body) {
        Some(doc) => T::decoded(doc),
        None => None,
    }
}

/// Decodes a body as a `T`. A body that is no JSON document, or not of the
/// shape of `T`, is a [`Error::Codec`] that carries the body.
pub fn decode<T: FromJson>(body: Vec<u8>) -> (r: Result<T, Error>)
    ensures
        match r {
            Ok(x) => decoded_body::<T>(body@) == Some(x@),
            Err(e) => decoded_body::<T>(body@) is None && e@ == (ErrorView::Codec { raw: body@ }),
        },
{
    let read = match parse(body.as_slice()) {
        Some(value) => T::from_json(&value),
        None => None,
    };
    found_or_codec(body, read)
}

/// What a JSON array decodes to: every element has to decode.
pub open spec fn decoded_list<T: FromJson>(json: Json) -> Option<Seq<T::V>> {
    match json {
        Json::List(items) => if forall|i: int| 0 <= i < items.len() ==> (#[trigger] T::decoded(
            items[i],
        )) is Some {
            Some(Seq::new(items.len(), |i: int| T::decoded(items[i])->0))
        } else {
            None
        },
        _ => None,
    }
}

/// Reads a JSON array whose every element is a `T`.
pub fn list<T: FromJson>(value: &Value) -> (r: Option<Vec<T>>)
    ensures
        optional_views(r) == decoded_list::<T>(json_of(*value)),
{
    let items = as_array(value)?;
    let ghost jsons = jsons_of(items@);
    let mut out: Vec<T> = Vec::new();
    let mut i: usize = 0;
    while i < items.len()
        invariant
            i <= items.len(),
            jsons == jsons_of(items@),
            json_of(*value) == Json::List(jsons),
            out.len() == i,
            forall|k: int| 0 <= k < i ==> (#[trigger] T::decoded(jsons[k])) == Some(out@[k]@),
        decreases items.len() - i,
    {
        match T::from_json(&items[i]) {
            Some(x) => {
                out.push(x);
            },
            None => {
                assert(jsons[i as int] == json_of(items@[i as int]));
                assert(T::decoded(jsons[i as int]) is None);
                return None;
            },
        }
        i += 1;
    }
    assert(views(out@) =~= decoded_list::<T>(json_of(*value))->0);
    Some(out)
}

/// What the member under `key` decodes to as a list. The member has to be
/// there.
pub open spec fn decoded_list_at<T: FromJson>(json: Json, key: Seq<char>) -> Option<Seq<T::V>> {
    match spec_member(json, key) {
        Some(found) => decoded_list::<T>(found),
        None => None,
    }
}

/// Reads the list under `key`, which must be there.
pub fn list_at<T: FromJson>(value: &Value, key: &str) -> (r: Option<Vec<T>>)
    ensures
        optional_views(r) == decoded_list_at::<T>(json_of(*value), key@),
{
    let found = member(value, key)?;
    list(found)
}

/// What a body decodes to as the list under `key` of a JSON object.
pub open spec fn decoded_list_body<T: FromJson>(body: Seq<u8>, key: Seq<char>) -> Option<
    Seq<T::V>,
> {
    match json_document(body) {
        Some(doc) => decoded_list_at::<T>(doc, key),
        None => None,
    }
}

/// Decodes a body as a JSON object with a list of `T` under `key`. A body of
/// any other shape is a [`Error::Codec`] that carries the body.
pub fn decode_list<T: FromJson>(body: Vec<u8>, key: &str) -> (r: Result<Vec<T>, Error>)
    ensures
        match r {
            Ok(items) => decoded_list_body::<T>(body@, key@) == Some(views(items@)),
            Err(e) => decoded_list_body::<T>(body@, key@) is None && e@ == (ErrorView::Codec {
                raw: body@,
            }),
        },
{
    let read = match parse(body.as_slice()) {
        Some(value) => list_at::<T>(&value, key),
        None => None,
    };
    found_or_codec(body, read)
}

/// What a body says under `key`, if it is a JSON object with a string there.
pub open spec fn text_member(body: Seq<u8>, key: Seq<char>) -> Option<Seq<char>> {
    match json_document(body) {
        Some(doc) => required(doc, key, |j: Json| spec_text(j)),
        None => None,
    }
}

/// Reads the string under `key` of a body that is a JSON object.
pub fn read_text_member(body: &[u8], key: &str) -> (r: Option<String>)
    ensures
        inner_view(r) == text_member(body@, key@),
{
    let value = parse(body)?;
    text(member(&value, key)?)
}

/// A type that can be written as a JSON text.
pub trait ToJson {
    /// This value as a JSON text.
    spec fn encoded(&self) -> Seq<char>;

    /// Writes this value as a JSON text.
    fn to_json(&self) -> (r: String)
        ensures
            r@ == self.encoded(),
    ;
}

/// Writes `text` as a JSON string literal onto the end of `out`.
pub fn push_quoted(out: &mut String, text: &str)
    ensures
        final(out)@ == old(out)@ + json_quoted(text@),
{
    match quote(text) {
        Some(quoted) => out.append(quoted.as_str()),
        None => {},
    }
}

/// A boolean as JSON writes it.
pub open spec fn json_flag(b: bool) -> Seq<char> {
    if b {
        "true"@
    } else {
        "false"@
    }
}

/// Writes a boolean as JSON writes it onto the end of `out`.
pub fn push_flag(out: &mut String, b: bool)
    ensures
        final(out)@ == old(out)@ + json_flag(b),
{
    if b {
        out.append("true");
    } else {
        out.append("false");
    }
}

} // verus!
