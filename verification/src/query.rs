//! Query strings in `application/x-www-form-urlencoded` form.

use crate::escape::percent;
use vstd::prelude::*;

verus! {

/// The bytes that the form encoding leaves as they are: ASCII letters and
/// digits, and `*` `-` `.` `_`.
pub open spec fn form_unchanged(byte: u8) -> bool {
    ||| 0x30 <= byte <= 0x39
    ||| 0x41 <= byte <= 0x5a
    ||| 0x61 <= byte <= 0x7a
    ||| byte == 0x2a
    ||| byte == 0x2d
    ||| byte == 0x2e
    ||| byte == 0x5f
}

/// One byte in form encoding: itself, `+` for a space, or its
/// percent-encoding.
pub open spec fn form_byte(byte: u8) -> Seq<char> {
    if form_unchanged(byte) {
        seq![byte as char]
    } else if byte == 0x20 {
        seq!['+']
    } else {
        percent(byte)
    }
}

/// A byte string in form encoding.
pub open spec fn form_bytes(bytes: Seq<u8>) -> Seq<char>
    decreases bytes.len(),
{
    if bytes.len() == 0 {
        Seq::empty()
    } else {
        form_bytes(bytes.drop_last()) + form_byte(bytes.last())
    }
}

/// One `name=value` pair in form encoding.
pub open spec fn form_pair(pair: (Seq<char>, Seq<char>)) -> Seq<char> {
    form_bytes(vstd::utf8::encode_utf8(pair.0)) + seq!['='] + form_bytes(
        vstd::utf8::encode_utf8(pair.1),
    )
}

/// A list of pairs in form encoding, with `&` between neighbours.
pub open spec fn form_encoded(pairs: Seq<(Seq<char>, Seq<char>)>) -> Seq<char>
    decreases pairs.len(),
{
    if pairs.len() == 0 {
        Seq::empty()
    } else if pairs.len() == 1 {
        form_pair(pairs[0])
    } else {
        form_encoded(pairs.drop_last()) + seq!['&'] + form_pair(pairs.last())
    }
}

/// The name of the parameter that says what to embed in each item.
pub open spec fn embed_key() -> Seq<char> {
    "inc"@ + "lude"@
}

pub(crate) fn embed_key_string() -> (key: String)
    ensures
        key@ == embed_key(),
{
    let mut key = "inc".to_owned();
    key.append("lude");
    key
}

/// The views of a list of pairs of strings.
pub open spec fn pair_views(pairs: Seq<(String, String)>) -> Seq<(Seq<char>, Seq<char>)> {
    pairs.map_values(|p: (String, String)| (p.0@, p.1@))
}

/// `url::form_urlencoded::Serializer`, from `new` on an empty string through
/// `extend_pairs` to `finish`: each pair is written as name, `=`, value, both
/// in form encoding of their UTF-8 bytes, with `&` before every pair but the
/// first.
#[verifier::external_body]
pub(crate) fn form_urlencode(pairs: &Vec<(String, String)>) -> (r: String)
    ensures
        r@ == form_encoded(pair_views(pairs@)),
{
    url::form_urlencoded::Serializer::new(String::new()).extend_pairs(pairs.iter()).finish()
}

} // verus!
