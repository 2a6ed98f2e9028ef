//! One page of a listing and the pointer to the page after it.

use crate::codec::{
    decoded_list_at, found_or_codec, list_at, optional_member, required_member, FromJson,
};
use crate::error::{Error, ErrorView};
use crate::json::{json_document, json_of, optional, parse, required, Json};
use crate::views::{inner_view, views};
use serde_json::Value;
use vstd::prelude::*;

verus! {

/// A pointer to a page: a path on the host that served it.
#[derive(Debug, Clone)]
pub struct Page {
    pub href: String,
}

impl View for Page {
    type V = Seq<char>;

    open spec fn view(&self) -> Seq<char> {
        self.href@
    }
}

/// Where a page stands in its listing.
#[derive(Debug, Clone)]
pub struct Pagination {
    /// How many items the whole listing has.
    pub count: usize,
    /// The first page.
    pub first: Page,
    /// The page after this one. `None` on the last page.
    pub next: Option<Page>,
}

/// The mathematical content of a [`Pagination`].
pub struct PaginationView {
    pub count: usize,
    pub first: Seq<char>,
    pub next: Option<Seq<char>>,
}

impl View for Pagination {
    type V = PaginationView;

    open spec fn view(&self) -> PaginationView {
        PaginationView { count: self.count, first: self.first@, next: inner_view(self.next) }
    }
}

/// One page of a listing: its items in the order the server gave them, and
/// where the page stands.
#[derive(Debug, Clone)]
pub struct Envelope<T> {
    pub items: Vec<T>,
    pub pagination: Pagination,
}

/// The items of a page and the pointer to the page after it.
pub struct PageView<T> {
    pub items: Seq<T>,
    pub next: Option<Seq<char>>,
}

impl<T> Envelope<T> {
    /// The items of this page and the pointer to the page after it.
    pub open spec fn page(self) -> PageView<T> {
        PageView { items: self.items@, next: inner_view(self.pagination.next) }
    }
}

impl FromJson for Page {
    open spec fn decoded(json: Json) -> Option<Seq<char>> {
        required(json, "@href"@, |j: Json| String::decoded(j))
    }

    fn from_json(value: &Value) -> (r: Option<Page>) {
        let href = required_member::<String>(value, "@href")?;
        Some(Page { href })
    }
}

impl FromJson for Pagination {
    open spec fn decoded(json: Json) -> Option<PaginationView> {
        match (
            required(json, "count"@, |j: Json| usize::decoded(j)),
            required(json, "first"@, |j: Json| Page::decoded(j)),
            optional(json, "next"@, |j: Json| Page::decoded(j)),
        ) {
            (Some(count), Some(first), Some(next)) => Some(PaginationView { count, first, next }),
            _ => None,
        }
    }

    fn from_json(value: &Value) -> (r: Option<Pagination>) {
        let count = required_member::<usize>(value, "count")?;
        let first = required_member::<Page>(value, "first")?;
        let next = optional_member::<Page>(value, "next")?;
        Some(Pagination { count, first, next })
    }
}

/// The mathematical content of a page whose items have one.
pub struct EnvelopeView<V> {
    pub items: Seq<V>,
    pub pagination: PaginationView,
}

impl<T: View> View for Envelope<T> {
    type V = EnvelopeView<T::V>;

    open spec fn view(&self) -> EnvelopeView<T::V> {
        EnvelopeView { items: views(self.items@), pagination: self.pagination@ }
    }
}

/// What a JSON document decodes to as a page whose items stand under `key`:
/// an object with a list of `T` under `key` and the page's place under
/// `@pagination`.
pub open spec fn decoded_envelope<T: FromJson>(json: Json, key: Seq<char>) -> Option<
    EnvelopeView<T::V>,
> {
    match (
        decoded_list_at::<T>(json, key),
        required(json, "@pagination"@, |j: Json| Pagination::decoded(j)),
    ) {
        (Some(items), Some(pagination)) => Some(EnvelopeView { items, pagination }),
        _ => None,
    }
}

/// What a body decodes to as a page whose items stand under `key`.
pub open spec fn decoded_page<T: FromJson>(body: Seq<u8>, key: Seq<char>) -> Option<
    EnvelopeView<T::V>,
> {
    match json_document(body) {
        Some(doc) => decoded_envelope::<T>(doc, key),
        None => None,
    }
}

/// Reads a parsed value as a page whose items stand under `key`.
pub fn envelope<T: FromJson>(value: &Value, key: &str) -> (r: Option<Envelope<T>>)
    ensures
        match r {
            Some(e) => decoded_envelope::<T>(json_of(*value), key@) == Some(e@),
            None => decoded_envelope::<T>(json_of(*value), key@) is None,
        },
{
    let items = list_at::<T>(value, key)?;
    let pagination = required_member::<Pagination>(value, "@pagination")?;
    Some(Envelope { items, pagination })
}

/// Decodes a body as a page whose items stand under `key`. A body of any
/// other shape is a [`Error::Codec`] that carries the body.
pub fn decode_page<T: FromJson>(body: Vec<u8>, key: &str) -> (r: Result<Envelope<T>, Error>)
    ensures
        match r {
            Ok(e) => decoded_page::<T>(body@, key@) == Some(e@),
            Err(e) => decoded_page::<T>(body@, key@) is None && e@ == (ErrorView::Codec {
                raw: body@,
            }),
        },
{
    let read = match parse(body.as_slice()) {
        Some(value) => envelope::<T>(&value, key),
        None => None,
    };
    found_or_codec(body, read)
}

} // verus!
