//! A paginated listing, from the first request to the last item.
//!
//! A [`Listing`] decides what happens next and leaves the sending to the
//! caller: whenever a page is needed, [`Listing::step`] hands out the request
//! for it, and the caller hands the outcome back with [`Listing::receive`].

use crate::client::Client;
use crate::codec::FromJson;
use crate::cursor::{pointing, spec_failed, spec_pull, Cursor, CursorView, Pull, PullView};
use crate::error::{Error, ErrorView};
use crate::http::{Method, Request, Response};
use crate::pagination::{EnvelopeView, Page};
use crate::response::spec_page;
use crate::uri::uri_accepted;
use crate::views::views;
use vstd::prelude::*;

verus! {

/// What one step through a listing gives.
#[derive(Debug)]
pub enum Step<T> {
    /// The next item.
    Item(T),
    /// A page is needed. Send this request and hand the outcome to
    /// [`Listing::receive`].
    Send(Request),
    /// The listing ended because of this failure.
    Failed(Error),
    /// The listing has ended.
    Done,
}

/// A listing that is read item by item and fetched page by page.
#[derive(Debug)]
pub struct Listing<T> {
    travis: Client,
    key: String,
    cursor: Cursor<T>,
}

/// The outcome of a fetch as the page it brought or the failure it was.
pub open spec fn spec_fetched<T: FromJson>(outcome: Result<Response, Error>, key: Seq<char>) -> Result<
    EnvelopeView<T::V>,
    ErrorView,
> {
    match outcome {
        Ok(response) => spec_page::<T>(response.status, response.body@, key),
        Err(e) => Err(e@),
    }
}

impl<T: FromJson> Listing<T> {
    /// The client that pages are asked with.
    pub closed spec fn spec_travis(self) -> Client {
        self.travis
    }

    /// The name under which a page holds its items.
    pub closed spec fn spec_key(self) -> Seq<char> {
        self.key@
    }

    /// The state of the cursor that walks the pages.
    pub closed spec fn spec_cursor(self) -> CursorView<T> {
        self.cursor@
    }

    /// Where the page at a path is fetched: the path follows the host
    /// directly.
    pub open spec fn page_uri(self, href: Seq<char>) -> Seq<char> {
        self.spec_travis().spec_host() + href
    }

    /// A listing of the items that pages hold under `key`, beginning with
    /// the page at the path `first`. Nothing has been fetched yet.
    pub fn new(travis: Client, key: &str, first: String) -> (listing: Listing<T>)
        ensures
            listing.spec_travis() == travis,
            listing.spec_key() == key@,
            listing.spec_cursor() == pointing::<T>(first@),
    {
        Listing { travis, key: key.to_owned(), cursor: Cursor::at(Page { href: first }) }
    }

    /// Takes the next step through the listing.
    ///
    /// While the current page has items, hands out the next of them. When it
    /// is used up and points to a next page, hands out the request for that
    /// page; where the page's address is no well-formed URI, the listing
    /// ends with that failure. A page that points nowhere ends the listing,
    /// and so does any earlier failure.
    pub fn step(&mut self) -> (r: Step<T>)
        ensures
            final(self).spec_travis() == old(self).spec_travis(),
            final(self).spec_key() == old(self).spec_key(),
            ({
                let (pulled, after) = spec_pull(old(self).spec_cursor());
                match pulled {
                    PullView::Item(x) => r == Step::Item(x) && final(self).spec_cursor() == after,
                    PullView::Done => r is Done && final(self).spec_cursor() == after,
                    PullView::Fetch(href) => if uri_accepted(old(self).page_uri(href)) {
                        &&& r matches Step::Send(request)
                        &&& request@ == old(self).spec_travis().spec_request(
                            Method::Get,
                            None,
                            old(self).page_uri(href),
                        )
                        &&& final(self).spec_cursor() == after
                    } else {
                        &&& r matches Step::Failed(e)
                        &&& e@ == ErrorView::Uri(old(self).page_uri(href))
                        &&& final(self).spec_cursor() == spec_failed(after)
                    },
                }
            }),
    {
        match self.cursor.pull() {
            Pull::Item(x) => Step::Item(x),
            Pull::Done => Step::Done,
            Pull::Fetch(page) => {
                let mut uri = self.travis.host().clone();
                uri.append(page.href.as_str());
                match self.travis.get(uri) {
                    Ok(request) => Step::Send(request),
                    Err(e) => match self.cursor.resume(Err(e)) {
                        Err(e) => Step::Failed(e),
                        Ok(_) => Step::Done,
                    },
                }
            },
        }
    }

    /// Hands the outcome of sending a request to the listing.
    ///
    /// A success that decodes as a page makes that page the current one. A
    /// request that could not be sent, a response outside the 2xx range and a
    /// body that is no page all end the listing: the failure is handed back
    /// to be reported, and every later step says that the listing is done.
    pub fn receive(&mut self, outcome: Result<Response, Error>) -> (r: Result<(), Error>)
        ensures
            final(self).spec_travis() == old(self).spec_travis(),
            final(self).spec_key() == old(self).spec_key(),
            match spec_fetched::<T>(outcome, old(self).spec_key()) {
                Ok(page) => {
                    &&& r is Ok
                    &&& views(final(self).spec_cursor().remaining) == page.items
                    &&& final(self).spec_cursor().next == page.pagination.next
                    &&& final(self).spec_cursor().ended == old(self).spec_cursor().ended
                },
                Err(failure) => {
                    &&& r matches Err(e)
                    &&& e@ == failure
                    &&& final(self).spec_cursor() == spec_failed(old(self).spec_cursor())
                },
            },
    {
        let fetched = match outcome {
            Ok(response) => response.page::<T>(self.key.as_str()),
            Err(e) => Err(e),
        };
        self.cursor.resume(fetched)
    }
}

} // verus!
