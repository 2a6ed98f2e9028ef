use travis::Error;
use travis::cursor::{paginate, Cursor, Pull};
use travis::pagination::{Envelope, Page, Pagination};

fn page(items: Vec<u32>, next: Option<&str>) -> Envelope<u32> {
    Envelope {
        items,
        pagination: Pagination {
            count: 0,
            first: Page { href: String::from("/first") },
            next: next.map(|href| Page { href: String::from(href) }),
        },
    }
}

/// Pulls until the listing ends, answering each request for a page from
/// `rest`. Returns what came out and the paths that were fetched.
fn drain(first: Envelope<u32>, rest: Vec<Envelope<u32>>) -> (Vec<u32>, Vec<String>) {
    let mut cursor = Cursor::new(first);
    let mut rest = rest.into_iter();
    let mut items = Vec::new();
    let mut fetched = Vec::new();
    loop {
        match cursor.pull() {
            Pull::Item(x) => items.push(x),
            Pull::Fetch(page) => {
                fetched.push(page.href);
                match rest.next() {
                    Some(next) => cursor.resume(Ok(next)).unwrap(),
                    None => break,
                }
            }
            Pull::Done => break,
        }
    }
    (items, fetched)
}

#[test]
fn one_page_yields_its_items_in_order() {
    let (items, fetched) = drain(page(vec![1, 2, 3], None), vec![]);
    assert_eq!(items, vec![1, 2, 3]);
    assert!(fetched.is_empty());
}

#[test]
fn two_pages_are_concatenated() {
    let (items, fetched) = drain(page(vec![1, 2], Some("/p2")), vec![page(vec![3, 4], None)]);
    assert_eq!(items, vec![1, 2, 3, 4]);
    assert_eq!(fetched, vec![String::from("/p2")]);
}

#[test]
fn many_pages_are_concatenated() {
    let mut rest = Vec::new();
    let mut expected = vec![0, 1, 2];
    for p in 1..7u32 {
        let next = if p == 6 { None } else { Some(format!("/p{}", p + 2)) };
        let items: Vec<u32> = (p * 3..p * 3 + 3).collect();
        expected.extend(items.iter().copied());
        rest.push(page(items, next.as_deref()));
    }
    let (items, fetched) = drain(page(vec![0, 1, 2], Some("/p2")), rest);
    assert_eq!(items, expected);
    assert_eq!(fetched.len(), 6);
    assert_eq!(fetched[0], "/p2");
    assert_eq!(fetched[5], "/p7");
}

#[test]
fn the_same_items_come_out_however_they_are_split() {
    let whole = drain(page(vec![1, 2, 3, 4, 5, 6], None), vec![]).0;
    let halves = drain(page(vec![1, 2, 3], Some("/b")), vec![page(vec![4, 5, 6], None)]).0;
    let singles = drain(
        page(vec![1], Some("/2")),
        vec![
            page(vec![2], Some("/3")),
            page(vec![3], Some("/4")),
            page(vec![4], Some("/5")),
            page(vec![5], Some("/6")),
            page(vec![6], None),
        ],
    )
    .0;
    assert_eq!(whole, vec![1, 2, 3, 4, 5, 6]);
    assert_eq!(halves, whole);
    assert_eq!(singles, whole);
}

#[test]
fn duplicates_are_kept_and_nothing_is_reordered() {
    let (items, _) = drain(page(vec![5, 5, 1], Some("/n")), vec![page(vec![5, 0, 9], None)]);
    assert_eq!(items, vec![5, 5, 1, 5, 0, 9]);
}

#[test]
fn an_empty_page_with_a_next_pointer_does_not_end_the_listing() {
    let (items, fetched) = drain(
        page(vec![1], Some("/empty")),
        vec![page(vec![], Some("/last")), page(vec![2, 3], None)],
    );
    assert_eq!(items, vec![1, 2, 3]);
    assert_eq!(fetched, vec![String::from("/empty"), String::from("/last")]);
}

#[test]
fn an_empty_first_page_with_a_next_pointer_asks_for_the_next_page() {
    let mut cursor = Cursor::new(page(vec![], Some("/p2")));
    match cursor.pull() {
        Pull::Fetch(p) => assert_eq!(p.href, "/p2"),
        other => panic!("expected a fetch, got {:?}", other),
    }
}

#[test]
fn several_empty_pages_in_a_row_are_walked_through() {
    let (items, fetched) = drain(
        page(vec![], Some("/a")),
        vec![page(vec![], Some("/b")), page(vec![], Some("/c")), page(vec![7], None)],
    );
    assert_eq!(items, vec![7]);
    assert_eq!(fetched.len(), 3);
}

#[test]
fn a_page_without_a_next_pointer_ends_the_listing_without_a_fetch() {
    let spare = vec![page(vec![9, 9], None), page(vec![8], None)];
    let (items, fetched) = drain(page(vec![1, 2], None), spare);
    assert_eq!(items, vec![1, 2]);
    assert_eq!(fetched.len(), 0);
}

#[test]
fn the_last_page_stops_the_fetching() {
    let rest = vec![page(vec![3], None), page(vec![4], None)];
    let (items, fetched) = drain(page(vec![1, 2], Some("/p2")), rest);
    assert_eq!(items, vec![1, 2, 3]);
    assert_eq!(fetched, vec![String::from("/p2")]);
}

#[test]
fn an_empty_last_page_ends_the_listing() {
    let mut cursor: Cursor<u32> = Cursor::new(page(vec![], None));
    assert!(matches!(cursor.pull(), Pull::Done));
    assert!(matches!(cursor.pull(), Pull::Done));
}

#[test]
fn done_stays_done() {
    let mut cursor = Cursor::new(page(vec![1], None));
    assert!(matches!(cursor.pull(), Pull::Item(1)));
    assert!(matches!(cursor.pull(), Pull::Done));
    assert!(matches!(cursor.pull(), Pull::Done));
}

#[test]
fn no_page_is_asked_for_while_items_are_left() {
    let mut cursor = Cursor::new(page(vec![1, 2, 3], Some("/p2")));
    let mut fetches = 0;
    for expected in 1..=3u32 {
        match cursor.pull() {
            Pull::Item(x) => assert_eq!(x, expected),
            Pull::Fetch(_) => fetches += 1,
            Pull::Done => panic!("ended early"),
        }
    }
    drop(cursor);
    assert_eq!(fetches, 0);
}

#[test]
fn letting_go_after_the_first_page_fetches_nothing_more() {
    let mut cursor = Cursor::new(page(vec![1, 2], Some("/p2")));
    let mut fetches = 0;
    let mut seen = Vec::new();
    while cursor.buffered() > 0 {
        match cursor.pull() {
            Pull::Item(x) => seen.push(x),
            Pull::Fetch(_) => fetches += 1,
            Pull::Done => break,
        }
    }
    drop(cursor);
    assert_eq!(seen, vec![1, 2]);
    assert_eq!(fetches, 0);
}

#[test]
fn a_failed_fetch_ends_the_listing_with_that_error() {
    let mut cursor = Cursor::new(page(vec![1], Some("/p2")));
    assert!(matches!(cursor.pull(), Pull::Item(1)));
    assert!(matches!(cursor.pull(), Pull::Fetch(_)));
    let reported = cursor.resume(Err(Error::Transport(String::from("connection reset"))));
    match reported {
        Err(Error::Transport(reason)) => assert_eq!(reason, "connection reset"),
        other => panic!("expected the transport error, got {:?}", other),
    }
    assert!(matches!(cursor.pull(), Pull::Done));
    assert!(matches!(cursor.pull(), Pull::Done));
}

#[test]
fn items_handed_out_before_a_failure_stay_valid() {
    let mut cursor = Cursor::new(page(vec![10, 20], Some("/p2")));
    let mut seen = Vec::new();
    loop {
        match cursor.pull() {
            Pull::Item(x) => seen.push(x),
            Pull::Fetch(_) => {
                let _ = cursor.resume(Err(Error::Fault { code: 500, error: String::from("boom") }));
            }
            Pull::Done => break,
        }
    }
    assert_eq!(seen, vec![10, 20]);
}

#[test]
fn the_same_page_is_asked_for_until_it_is_handed_over() {
    let mut cursor: Cursor<u32> = Cursor::new(page(vec![], Some("/p2")));
    assert!(matches!(cursor.pull(), Pull::Fetch(_)));
    match cursor.pull() {
        Pull::Fetch(p) => assert_eq!(p.href, "/p2"),
        other => panic!("expected a fetch, got {:?}", other),
    }
    cursor.resume(Ok(page(vec![4], None))).unwrap();
    assert!(matches!(cursor.pull(), Pull::Item(4)));
    assert!(matches!(cursor.pull(), Pull::Done));
}

#[test]
fn buffered_counts_what_is_left_of_the_page() {
    let mut cursor = Cursor::new(page(vec![1, 2, 3], None));
    assert_eq!(cursor.buffered(), 3);
    let _ = cursor.pull();
    assert_eq!(cursor.buffered(), 2);
}

#[test]
fn reversed_turns_a_list_around() {
    assert_eq!(travis::cursor::reversed(vec![1, 2, 3]), vec![3, 2, 1]);
    assert_eq!(travis::cursor::reversed(Vec::<u8>::new()), Vec::<u8>::new());
}

#[test]
fn paginate_concatenates_the_pages_at_hand() {
    assert_eq!(paginate(page(vec![1, 2, 3], None), vec![]), vec![1, 2, 3]);
    assert_eq!(
        paginate(page(vec![1], Some("/2")), vec![page(vec![2, 3], Some("/3")), page(vec![4], None)]),
        vec![1, 2, 3, 4]
    );
    assert_eq!(paginate(page(Vec::<u32>::new(), None), vec![]), Vec::<u32>::new());
}

#[test]
fn paginate_passes_over_empty_pages() {
    let rest = vec![page(vec![], Some("/3")), page(vec![], Some("/4")), page(vec![9], None)];
    assert_eq!(paginate(page(vec![], Some("/2")), rest), vec![9]);
}

#[test]
fn paginate_stops_at_the_page_that_points_nowhere() {
    let rest = vec![page(vec![2], None), page(vec![3], None)];
    assert_eq!(paginate(page(vec![1], Some("/2")), rest), vec![1, 2]);
    assert_eq!(paginate(page(vec![1], None), vec![page(vec![2], None)]), vec![1]);
}

#[test]
fn paginate_stops_where_the_pages_run_out() {
    assert_eq!(paginate(page(vec![1], Some("/2")), vec![]), vec![1]);
    assert_eq!(paginate(page(vec![1], Some("/2")), vec![page(vec![2], Some("/3"))]), vec![1, 2]);
}

#[test]
fn paginate_agrees_with_pulling_by_hand() {
    let first = || page(vec![4, 5], Some("/b"));
    let rest = || vec![page(vec![], Some("/c")), page(vec![6, 7, 8], None)];
    assert_eq!(paginate(first(), rest()), drain(first(), rest()).0);
}

#[test]
fn a_cursor_without_a_page_asks_for_the_one_it_points_at() {
    let mut cursor: Cursor<u32> = Cursor::at(Page { href: String::from("/start") });
    assert_eq!(cursor.buffered(), 0);
    match cursor.pull() {
        Pull::Fetch(p) => assert_eq!(p.href, "/start"),
        other => panic!("expected a fetch, got {:?}", other),
    }
    cursor.resume(Ok(page(vec![1, 2], None))).unwrap();
    assert!(matches!(cursor.pull(), Pull::Item(1)));
    assert!(matches!(cursor.pull(), Pull::Item(2)));
    assert!(matches!(cursor.pull(), Pull::Done));
}
