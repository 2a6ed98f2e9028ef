//! Percent-encoding of the parts of a path.

use crate::text::push_char;
use vstd::prelude::*;

verus! {

/// The upper-case hexadecimal digit for a number below sixteen.
pub open spec fn hex_digit(n: nat) -> char {
    if n == 0 {
        '0'
    } else if n == 1 {
        '1'
    } else if n == 2 {
        '2'
    } else if n == 3 {
        '3'
    } else if n == 4 {
        '4'
    } else if n == 5 {
        '5'
    } else if n == 6 {
        '6'
    } else if n == 7 {
        '7'
    } else if n == 8 {
        '8'
    } else if n == 9 {
        '9'
    } else if n == 10 {
        'A'
    } else if n == 11 {
        'B'
    } else if n == 12 {
        'C'
    } else if n == 13 {
        'D'
    } else if n == 14 {
        'E'
    } else {
        'F'
    }
}

/// A byte as a percent sign and its two hexadecimal digits.
pub open spec fn percent(byte: u8) -> Seq<char> {
    seq!['%', hex_digit(byte as nat / 16), hex_digit(byte as nat % 16)]
}

/// `percent_encoding::percent_encode_byte`: a byte as a percent sign and
/// its two upper-case hexadecimal digits.
#[verifier::external_body]
pub(crate) fn percent_encode_byte(byte: u8) -> (r: &'static str)
    ensures
        r@ == percent(byte),
{
    percent_encoding::percent_encode_byte(byte)
}

/// The bytes that may not stand as they are in one segment of a path:
/// controls, bytes outside ASCII, and
/// space `"` `#` `%` `/` `<` `>` `?` `` ` `` `{` `}`.
pub open spec fn spec_needs_escape(byte: u8) -> bool {
    ||| byte < 0x20
    ||| byte >= 0x7f
    ||| byte == 0x20
    ||| byte == 0x22
    ||| byte == 0x23
    ||| byte == 0x25
    ||| byte == 0x2f
    ||| byte == 0x3c
    ||| byte == 0x3e
    ||| byte == 0x3f
    ||| byte == 0x60
    ||| byte == 0x7b
    ||| byte == 0x7d
}

/// Whether a byte may not stand as it is in one segment of a path.
#[verifier::when_used_as_spec(spec_needs_escape)]
pub fn needs_escape(byte: u8) -> (b: bool)
    ensures
        b == spec_needs_escape(byte),
{
    byte < 0x20 || byte >= 0x7f || byte == 0x20 || byte == 0x22 || byte == 0x23 || byte == 0x25
        || byte == 0x2f || byte == 0x3c || byte == 0x3e || byte == 0x3f || byte == 0x60 || byte
        == 0x7b || byte == 0x7d
}

/// One byte of a path segment, escaped where it has to be.
pub open spec fn escaped_byte(byte: u8) -> Seq<char> {
    if spec_needs_escape(byte) {
        percent(byte)
    } else {
        seq![byte as char]
    }
}

/// A byte string as one segment of a path.
pub open spec fn escaped(bytes: Seq<u8>) -> Seq<char>
    decreases bytes.len(),
{
    if bytes.len() == 0 {
        Seq::empty()
    } else {
        escaped(bytes.drop_last()) + escaped_byte(bytes.last())
    }
}

/// The characters that an escaped segment is made of: printable ASCII
/// without space, and without the slash, question mark and number sign that
/// would end the segment.
pub open spec fn segment_char(c: char) -> bool {
    &&& '!' <= c <= '~'
    &&& c != '/'
    &&& c != '?'
    &&& c != '#'
}

/// Whatever goes in, what comes out of escaping is one segment of a path:
/// every character of it is a [`segment_char`].
pub proof fn lemma_escaped_is_one_segment(bytes: Seq<u8>)
    ensures
        forall|i: int| 0 <= i < escaped(bytes).len() ==> segment_char(#[trigger] escaped(bytes)[i]),
    decreases bytes.len(),
{
    if bytes.len() > 0 {
        lemma_escaped_is_one_segment(bytes.drop_last());
        let b = bytes.last();
        let head = escaped(bytes.drop_last());
        let tail = escaped_byte(b);
        assert forall|k: int| 0 <= k < tail.len() implies segment_char(#[trigger] tail[k]) by {
            if spec_needs_escape(b) {
                assert(segment_char(hex_digit(b as nat / 16)));
                assert(segment_char(hex_digit(b as nat % 16)));
            }
        }
        assert forall|i: int| 0 <= i < escaped(bytes).len() implies segment_char(
            #[trigger] escaped(bytes)[i],
        ) by {
            if i < head.len() {
                assert(escaped(bytes)[i] == head[i]);
            } else {
                assert(escaped(bytes)[i] == tail[i - head.len()]);
            }
        }
    }
}

/// Escapes `raw` so that it can stand as one segment of a path: each byte of
/// its UTF-8 form that needs it is replaced by its percent-encoding, and
/// every other byte stays.
pub fn escape(raw: &str) -> (r: String)
    ensures
        r@ == escaped(vstd::utf8::encode_utf8(raw@)),
{
    let bytes = raw.as_bytes();
    let mut out = String::new();
    let mut i: usize = 0;
    while i < bytes.len()
        invariant
            i <= bytes.len(),
            out@ == escaped(bytes@.take(i as int)),
        decreases bytes.len() - i,
    {
        let b = bytes[i];
        proof {
            let now = bytes@.take(i as int + 1);
            assert(now.drop_last() =~= bytes@.take(i as int));
            assert(now.last() == b);
        }
        if needs_escape(b) {
            out.append(percent_encode_byte(b));
        } else {
            push_char(&mut out, b as char);
            assert(out@ == escaped(bytes@.take(i as int)) + seq![b as char]);
        }
        i += 1;
    }
    assert(bytes@.take(i as int) =~= bytes@);
    out
}

} // verus!
