//! Which addresses a request can be sent to.

use vstd::prelude::*;

verus! {

/// Whether a text is a URI that the HTTP stack accepts.
pub uninterp spec fn uri_accepted(text: Seq<char>) -> bool;

/// `hyper::Uri`'s `FromStr`: whether the text parses as a URI.
#[verifier::external_body]
pub(crate) fn accepts(text: &str) -> (ok: bool)
    ensures
        ok == uri_accepted(text@),
{
    text.parse::<hyper::Uri>().is_ok()
}

} // verus!
