//! A listing that spans pages, read item by item.
//!
//! A [`Cursor`] does no fetching. It hands out the items of the page it
//! holds, and when they are used up it says which page to fetch next. The
//! caller fetches that page and hands it back with [`Cursor::resume`].

use crate::error::Error;
use crate::pagination::{Envelope, Page, PageView};
use crate::views::inner_view;
use vstd::prelude::*;

verus! {

/// The state of a cursor.
pub struct CursorView<T> {
    /// The items of the current page that have not been handed out, next
    /// one first.
    pub remaining: Seq<T>,
    /// The pointer to the page after the current one.
    pub next: Option<Seq<char>>,
    /// Set once a fetch has failed: nothing more comes.
    pub ended: bool,
}

/// What one pull gives.
pub enum PullView<T> {
    /// The next item.
    Item(T),
    /// The current page is used up; the page at this path comes next.
    Fetch(Seq<char>),
    /// The listing has ended.
    Done,
}

/// The state of a cursor that has no page yet and is to begin with the page
/// at `first`.
pub open spec fn pointing<T>(first: Seq<char>) -> CursorView<T> {
    CursorView { remaining: Seq::empty(), next: Some(first), ended: false }
}

/// The state of a cursor that starts on a page.
pub open spec fn started<T>(first: PageView<T>) -> CursorView<T> {
    CursorView { remaining: first.items, next: first.next, ended: false }
}

/// One pull: what it gives, and the state it leaves.
///
/// While the current page has items, the next of them. Else, where the page
/// points to a next one and no fetch has failed, that pointer. Else the end.
pub open spec fn spec_pull<T>(c: CursorView<T>) -> (PullView<T>, CursorView<T>) {
    if c.remaining.len() > 0 {
        (
            PullView::Item(c.remaining[0]),
            CursorView { remaining: c.remaining.drop_first(), next: c.next, ended: c.ended },
        )
    } else if c.ended {
        (PullView::Done, c)
    } else {
        match c.next {
            Some(href) => (PullView::Fetch(href), c),
            None => (PullView::Done, c),
        }
    }
}

/// The state after a fetched page has been handed to the cursor: the page
/// takes the place of the current one.
pub open spec fn spec_resumed<T>(c: CursorView<T>, page: PageView<T>) -> CursorView<T> {
    CursorView { remaining: page.items, next: page.next, ended: c.ended }
}

/// The state after a fetch has failed.
pub open spec fn spec_failed<T>(c: CursorView<T>) -> CursorView<T> {
    CursorView { remaining: Seq::empty(), next: c.next, ended: true }
}

/// A whole run of a cursor: what it handed out and how many pages it had
/// fetched for it.
pub struct Run<T> {
    pub items: Seq<T>,
    pub fetches: nat,
}

/// Pulls from a cursor until the listing ends, answering each request for a
/// page with the next of `pages`. Where a page is asked for and `pages` has
/// none left, the run stops there, as it does when the caller lets go of the
/// cursor.
pub open spec fn spec_run<T>(c: CursorView<T>, pages: Seq<PageView<T>>) -> Run<T>
    decreases pages.len(), c.remaining.len(),
{
    match spec_pull(c) {
        (PullView::Item(x), after) => {
            let rest = spec_run(after, pages);
            Run { items: seq![x] + rest.items, fetches: rest.fetches }
        },
        (PullView::Fetch(_), after) => if pages.len() > 0 {
            let rest = spec_run(spec_resumed(after, pages[0]), pages.skip(1));
            Run { items: rest.items, fetches: rest.fetches + 1 }
        } else {
            Run { items: Seq::empty(), fetches: 0 }
        },
        (PullView::Done, _) => Run { items: Seq::empty(), fetches: 0 },
    }
}

/// The items of a page followed by those of the pages that its pointers
/// lead to: `rest` holds the pages that follow, in order, and the chain ends
/// with the first page that points nowhere.
pub open spec fn linked_items<T>(first: PageView<T>, rest: Seq<PageView<T>>) -> Seq<T>
    decreases rest.len(),
{
    if first.next is Some && rest.len() > 0 {
        first.items + linked_items(rest[0], rest.skip(1))
    } else {
        first.items
    }
}

/// How many of the pages in `rest` the pointers lead to, starting from
/// `first`.
pub open spec fn linked_pages<T>(first: PageView<T>, rest: Seq<PageView<T>>) -> nat
    decreases rest.len(),
{
    if first.next is Some && rest.len() > 0 {
        1 + linked_pages(rest[0], rest.skip(1))
    } else {
        0
    }
}

/// True where every page but the last points to a next one and the last
/// points nowhere.
pub open spec fn chained<T>(pages: Seq<PageView<T>>) -> bool {
    &&& pages.len() > 0
    &&& forall|i: int| 0 <= i < pages.len() - 1 ==> (#[trigger] pages[i]).next is Some
    &&& pages.last().next is None
}

/// The items of each page.
pub open spec fn items_of<T>(pages: Seq<PageView<T>>) -> Seq<Seq<T>> {
    pages.map_values(|p: PageView<T>| p.items)
}

/// A run from any state in which no fetch has failed hands out what is left
/// of the current page and then the items of the pages that follow, and
/// fetches each of those pages once.
pub proof fn lemma_run_from<T>(c: CursorView<T>, pages: Seq<PageView<T>>)
    requires
        !c.ended,
    ensures
        spec_run(c, pages).items == linked_items(
            PageView { items: c.remaining, next: c.next },
            pages,
        ),
        spec_run(c, pages).fetches == linked_pages(
            PageView { items: c.remaining, next: c.next },
            pages,
        ),
    decreases pages.len(), c.remaining.len(),
{
    let here = PageView { items: c.remaining, next: c.next };
    if c.remaining.len() > 0 {
        let after = spec_pull(c).1;
        lemma_run_from(after, pages);
        let there = PageView { items: after.remaining, next: after.next };
        assert(seq![c.remaining[0]] + after.remaining =~= c.remaining);
        if c.next is Some && pages.len() > 0 {
            assert(linked_items(here, pages) =~= seq![c.remaining[0]] + linked_items(
                there,
                pages,
            ));
        }
    } else if c.next is Some && pages.len() > 0 {
        let after = spec_resumed(c, pages[0]);
        lemma_run_from(after, pages.skip(1));
        assert(PageView { items: after.remaining, next: after.next } == pages[0]);
        assert(linked_items(here, pages) =~= linked_items(pages[0], pages.skip(1)));
    }
}

/// A cursor yields the items of the first page and of every page that the
/// pointers lead to, each page's items in the order the server gave them and
/// the pages in the order they were fetched, whatever the number of pages.
/// Each of those pages is fetched once.
pub proof fn lemma_run_concatenates<T>(first: PageView<T>, rest: Seq<PageView<T>>)
    ensures
        spec_run(started(first), rest).items == linked_items(first, rest),
        spec_run(started(first), rest).fetches == linked_pages(first, rest),
{
    lemma_run_from(started(first), rest);
    assert(PageView { items: started(first).remaining, next: started(first).next } == first);
}

/// A cursor that begins without a page fetches the page it points at and
/// from there on yields what a cursor started on that page yields. This is
/// how a listing begins: its first pull asks for the first page.
pub proof fn lemma_run_from_pointer<T>(first: Seq<char>, pages: Seq<PageView<T>>)
    requires
        pages.len() > 0,
    ensures
        spec_pull(pointing::<T>(first)).0 == PullView::<T>::Fetch(first),
        spec_run(pointing::<T>(first), pages).items == linked_items(pages[0], pages.skip(1)),
        spec_run(pointing::<T>(first), pages).fetches == 1 + linked_pages(
            pages[0],
            pages.skip(1),
        ),
{
    assert(spec_resumed(pointing::<T>(first), pages[0]) == started(pages[0]));
    lemma_run_concatenates(pages[0], pages.skip(1));
}

/// Where the pointers lead through all of `rest`, the linked items are the
/// items of all the pages, one page after the other.
pub proof fn lemma_linked_is_flattened<T>(first: PageView<T>, rest: Seq<PageView<T>>)
    requires
        chained(seq![first] + rest),
    ensures
        linked_items(first, rest) == items_of(seq![first] + rest).flatten(),
        linked_pages(first, rest) == rest.len(),
    decreases rest.len(),
{
    let all = seq![first] + rest;
    assert(all[0] == first);
    assert(items_of(all).drop_first() =~= items_of(rest));
    assert(items_of(all).first() == first.items);
    if rest.len() == 0 {
        assert(all.last() == first);
        assert(items_of(rest) =~= Seq::<Seq<T>>::empty());
        assert(items_of(rest).flatten() =~= Seq::<T>::empty());
        assert(items_of(all).flatten() =~= first.items);
    } else {
        let tail = rest.skip(1);
        assert(seq![rest[0]] + tail =~= rest);
        assert(chained(rest)) by {
            assert forall|i: int| 0 <= i < rest.len() - 1 implies (#[trigger] rest[i]).next
                is Some by {
                assert(all[i + 1] == rest[i]);
            }
            assert(all.last() == rest.last());
        }
        lemma_linked_is_flattened(rest[0], tail);
        assert(first.next is Some);
    }
}

/// The items of a listing split across pages come out as one sequence: the
/// concatenation of the pages' items in their order, with one fetch for each
/// page after the first.
pub proof fn lemma_paginate<T>(pages: Seq<PageView<T>>)
    requires
        chained(pages),
    ensures
        spec_run(started(pages[0]), pages.skip(1)).items == items_of(pages).flatten(),
        spec_run(started(pages[0]), pages.skip(1)).fetches == pages.len() - 1,
{
    lemma_run_concatenates(pages[0], pages.skip(1));
    assert(seq![pages[0]] + pages.skip(1) =~= pages);
    lemma_linked_is_flattened(pages[0], pages.skip(1));
}

/// A page without items that points to a next page does not end the
/// listing: the cursor asks for that page, and the run goes on with it.
pub proof fn lemma_empty_page_continues<T>(
    page: PageView<T>,
    href: Seq<char>,
    rest: Seq<PageView<T>>,
)
    requires
        page.items.len() == 0,
        page.next == Some(href),
        rest.len() > 0,
    ensures
        spec_pull(started(page)).0 == PullView::<T>::Fetch(href),
        spec_run(started(page), rest).items == spec_run(started(rest[0]), rest.skip(1)).items,
        spec_run(started(page), rest).fetches == spec_run(started(rest[0]), rest.skip(1)).fetches
            + 1,
{
    assert(spec_resumed(started(page), rest[0]) == started(rest[0]));
}

/// A page that points nowhere ends the listing once its items are handed
/// out: the run yields exactly its items and fetches nothing, whatever
/// pages could be had.
pub proof fn lemma_last_page_ends<T>(page: PageView<T>, rest: Seq<PageView<T>>)
    requires
        page.next is None,
    ensures
        spec_run(started(page), rest).items == page.items,
        spec_run(started(page), rest).fetches == 0,
{
    lemma_run_concatenates(page, rest);
}

/// No page is asked for while the current one has items left: the first
/// pulls hand out those items in order, and leave the rest in place.
pub proof fn lemma_items_before_fetch<T>(c: CursorView<T>)
    ensures
        c.remaining.len() > 0 ==> spec_pull(c).0 == PullView::Item(c.remaining[0]),
        spec_pull(c).0 is Fetch ==> c.remaining.len() == 0 && !c.ended && c.next is Some,
        spec_pull(c).0 is Done ==> c.remaining.len() == 0 && (c.ended || c.next is None),
{
}

/// After a failed fetch nothing more comes and nothing more is asked for.
pub proof fn lemma_failure_ends<T>(c: CursorView<T>, pages: Seq<PageView<T>>)
    ensures
        spec_pull(spec_failed(c)).0 == PullView::<T>::Done,
        spec_run(spec_failed(c), pages).items == Seq::<T>::empty(),
        spec_run(spec_failed(c), pages).fetches == 0,
{
}

/// What one pull gives.
#[derive(Debug)]
pub enum Pull<T> {
    /// The next item.
    Item(T),
    /// The current page is used up; this page comes next. Fetch it and call
    /// [`Cursor::resume`].
    Fetch(Page),
    /// The listing has ended.
    Done,
}

impl<T> Pull<T> {
    /// The mathematical content of a pull.
    pub open spec fn pulled(self) -> PullView<T> {
        match self {
            Pull::Item(x) => PullView::Item(x),
            Pull::Fetch(page) => PullView::Fetch(page@),
            Pull::Done => PullView::Done,
        }
    }
}

/// Turns a list around.
pub fn reversed<T>(items: Vec<T>) -> (r: Vec<T>)
    ensures
        r@ == items@.reverse(),
{
    let ghost all = items@;
    let mut items = items;
    let mut out: Vec<T> = Vec::new();
    while items.len() > 0
        invariant
            items@ == all.take(items.len() as int),
            out.len() + items.len() == all.len(),
            forall|k: int| 0 <= k < out.len() ==> out@[k] == all[all.len() - 1 - k],
        decreases items.len(),
    {
        let x = items.pop();
        match x {
            Some(x) => {
                out.push(x);
            },
            None => {},
        }
    }
    assert(out@ =~= all.reverse());
    out
}

/// A listing read item by item, with at most one page held at a time.
#[derive(Debug)]
pub struct Cursor<T> {
    /// The items of the current page that have not been handed out, last
    /// one first, so that the next one is taken off the end.
    buffer: Vec<T>,
    next: Option<Page>,
    ended: bool,
}

impl<T> View for Cursor<T> {
    type V = CursorView<T>;

    closed spec fn view(&self) -> CursorView<T> {
        CursorView {
            remaining: self.buffer@.reverse(),
            next: inner_view(self.next),
            ended: self.ended,
        }
    }
}

impl<T> Cursor<T> {
    /// A cursor on the first page of a listing.
    pub fn new(first: Envelope<T>) -> (c: Cursor<T>)
        ensures
            c@ == started(first.page()),
    {
        let buffer = reversed(first.items);
        assert(buffer@.reverse() =~= first.items@);
        Cursor { buffer, next: first.pagination.next, ended: false }
    }

    /// A cursor that holds no page yet: its first pull asks for the page at
    /// `first`.
    pub fn at(first: Page) -> (c: Cursor<T>)
        ensures
            c@ == pointing::<T>(first@),
    {
        let buffer: Vec<T> = Vec::new();
        assert(buffer@.reverse() =~= Seq::<T>::empty());
        Cursor { buffer, next: Some(first), ended: false }
    }

    /// Takes the next step through the listing.
    ///
    /// Hands out the next item of the current page. When the page is used
    /// up, asks for the page it points to, and keeps asking until
    /// [`Cursor::resume`] is called; a page that points nowhere ends the
    /// listing, as does a failed fetch.
    pub fn pull(&mut self) -> (r: Pull<T>)
        ensures
            (r.pulled(), final(self)@) == spec_pull(old(self)@),
    {
        let ghost before = self.buffer@;
        match self.buffer.pop() {
            Some(x) => {
                proof {
                    assert(before.reverse()[0] == x);
                    assert(self.buffer@.reverse() =~= before.reverse().drop_first());
                }
                Pull::Item(x)
            },
            None => {
                assert(self.buffer@.reverse() =~= before.reverse());
                if self.ended {
                    Pull::Done
                } else {
                    match &self.next {
                        Some(page) => Pull::Fetch(Page { href: page.href.clone() }),
                        None => Pull::Done,
                    }
                }
            },
        }
    }

    /// Hands the outcome of a fetch to the cursor.
    ///
    /// A page takes the place of the current one. A failure ends the
    /// listing: it is handed back to be reported, and every later pull says
    /// that the listing is done.
    pub fn resume(&mut self, fetched: Result<Envelope<T>, Error>) -> (r: Result<(), Error>)
        ensures
            match fetched {
                Ok(page) => r is Ok && final(self)@ == spec_resumed(old(self)@, page.page()),
                Err(e) => r == Err::<(), Error>(e) && final(self)@ == spec_failed(old(self)@),
            },
    {
        match fetched {
            Ok(page) => {
                self.buffer = reversed(page.items);
                self.next = page.pagination.next;
                assert(self.buffer@.reverse() =~= page.items@);
                Ok(())
            },
            Err(e) => {
                self.buffer = Vec::new();
                self.ended = true;
                assert(self.buffer@.reverse() =~= Seq::<T>::empty());
                Err(e)
            },
        }
    }

    /// How many items of the current page have not been handed out.
    pub fn buffered(&self) -> (n: usize)
        ensures
            n == self@.remaining.len(),
    {
        self.buffer.len()
    }
}

/// The pages that a list of envelopes stands for.
pub open spec fn pages_of<T>(envelopes: Seq<Envelope<T>>) -> Seq<PageView<T>> {
    envelopes.map_values(|e: Envelope<T>| e.page())
}

/// Reads a listing whose pages are already at hand: `first`, and in `rest`
/// the pages that the server would give next, in order.
///
/// The result holds the items of `first` and of every page of `rest` that
/// the pointers lead to, page after page, each page's items in their own
/// order. A page that points nowhere is the last one read, whatever `rest`
/// still holds.
pub fn paginate<T>(first: Envelope<T>, rest: Vec<Envelope<T>>) -> (items: Vec<T>)
    ensures
        items@ == linked_items(first.page(), pages_of(rest@)),
        items@ == spec_run(started(first.page()), pages_of(rest@)).items,
{
    let ghost start = first.page();
    let ghost all = pages_of(rest@);
    let mut cursor = Cursor::new(first);
    let mut queue = reversed(rest);
    let mut items: Vec<T> = Vec::new();
    proof {
        assert(pages_of(queue@.reverse()) =~= all) by {
            assert(queue@.reverse() =~= rest@);
        }
    }
    loop
        invariant_except_break
            !cursor@.ended,
            items@ + spec_run(cursor@, pages_of(queue@.reverse())).items == spec_run(
                started(start),
                all,
            ).items,
        ensures
            items@ == spec_run(started(start), all).items,
        decreases queue.len(), cursor@.remaining.len(),
    {
        let ghost before = cursor@;
        let ghost waiting = pages_of(queue@.reverse());
        let ghost had = items@;
        match cursor.pull() {
            Pull::Item(x) => {
                items.push(x);
                assert(items@ + spec_run(cursor@, waiting).items =~= had + spec_run(
                    before,
                    waiting,
                ).items);
            },
            Pull::Fetch(_) => {
                let ghost held = queue@;
                match queue.pop() {
                    Some(page) => {
                        proof {
                            assert(held.reverse()[0] == page);
                            assert(queue@.reverse() =~= held.reverse().skip(1));
                            assert(waiting[0] == page.page());
                            assert(pages_of(queue@.reverse()) =~= waiting.skip(1));
                        }
                        let _ = cursor.resume(Ok(page));
                    },
                    None => {
                        assert(waiting.len() == 0);
                        assert(items@ + Seq::<T>::empty() =~= items@);
                        break ;
                    },
                }
            },
            Pull::Done => {
                assert(items@ + Seq::<T>::empty() =~= items@);
                break ;
            },
        }
    }
    proof {
        lemma_run_concatenates(start, all);
    }
    items
}

} // verus!
