use travis::{Client, Construction, Credential, Error, State};
use travis::builds::{Build, ListOptions};
use travis::http::{Method, Request, Response};
use travis::listing::{Listing, Step};

fn client(token: Option<&str>) -> Client {
    let credential = token.map(|t| Credential::Token(String::from(t)));
    match Client::custom("https://travis.example", credential) {
        Ok(Construction::Ready(client)) => client,
        other => panic!("expected a ready client, got {:?}", other),
    }
}

fn build(id: usize) -> String {
    format!(
        "{{\"id\":{id},\"number\":\"{id}\",\"state\":\"passed\",\"event_type\":\"push\",\
         \"branch\":{{\"name\":\"master\"}},\"jobs\":[],\"created_by\":{{\"id\":1,\"login\":\"me\"}}}}"
    )
}

fn page(ids: &[usize], next: Option<&str>) -> Response {
    let builds: Vec<String> = ids.iter().map(|id| build(*id)).collect();
    let next = match next {
        Some(href) => format!("{{\"@href\":\"{href}\"}}"),
        None => String::from("null"),
    };
    let body = format!(
        "{{\"builds\":[{}],\"@pagination\":{{\"count\":9,\"first\":{{\"@href\":\"/first\"}},\"next\":{}}}}}",
        builds.join(","),
        next
    );
    Response { status: 200, body: body.into_bytes() }
}

/// Steps through a listing, answering each request from `answers`.
/// Returns the ids that came out, the addresses asked, and the failure
/// that ended the listing, if one did.
fn run(
    mut listing: Listing<Build>,
    answers: Vec<Result<Response, Error>>,
) -> (Vec<usize>, Vec<Request>, Option<Error>) {
    let mut answers = answers.into_iter();
    let mut ids = Vec::new();
    let mut asked = Vec::new();
    let mut failure = None;
    loop {
        match listing.step() {
            Step::Item(b) => ids.push(b.id),
            Step::Send(request) => {
                asked.push(request);
                let answer = answers.next().expect("more requests than answers");
                if let Err(e) = listing.receive(answer) {
                    failure = Some(e);
                }
            }
            Step::Failed(e) => failure = Some(e),
            Step::Done => break,
        }
    }
    (ids, asked, failure)
}

#[test]
fn the_first_step_asks_for_the_first_page() {
    let travis = client(Some("tok"));
    let mut listing = travis.builds("softprops/travis").iter(&ListOptions::default());
    match listing.step() {
        Step::Send(request) => {
            assert_eq!(request.method, Method::Get);
            assert!(request.uri.starts_with("https://travis.example/repo/softprops%2Ftravis/builds?"));
            assert!(request.uri.ends_with("&limit=25&sort_by=started_at"));
            assert_eq!(request.body, None);
            assert_eq!(request.header("authorization").map(|v| v.as_str()), Some("token tok"));
        }
        other => panic!("expected a request, got {:?}", other),
    }
}

#[test]
fn a_single_page_is_listed_in_order() {
    let listing = client(None).builds("a/b").iter(&ListOptions::default());
    let (ids, asked, failure) = run(listing, vec![Ok(page(&[3, 1, 2], None))]);
    assert_eq!(ids, vec![3, 1, 2]);
    assert_eq!(asked.len(), 1);
    assert!(failure.is_none());
}

#[test]
fn pages_are_followed_by_their_next_pointers() {
    let listing = client(None).builds("a/b").iter(&ListOptions::default());
    let answers = vec![
        Ok(page(&[1, 2], Some("/repo/a%2Fb/builds?offset=2"))),
        Ok(page(&[3, 4], Some("/repo/a%2Fb/builds?offset=4"))),
        Ok(page(&[5], None)),
    ];
    let (ids, asked, failure) = run(listing, answers);
    assert_eq!(ids, vec![1, 2, 3, 4, 5]);
    assert!(failure.is_none());
    assert_eq!(asked.len(), 3);
    assert_eq!(asked[1].uri, "https://travis.example/repo/a%2Fb/builds?offset=2");
    assert_eq!(asked[2].uri, "https://travis.example/repo/a%2Fb/builds?offset=4");
    assert_eq!(asked[2].method, Method::Get);
}

#[test]
fn an_empty_page_in_the_middle_is_passed_over() {
    let listing = client(None).builds("a/b").iter(&ListOptions::default());
    let answers = vec![
        Ok(page(&[1], Some("/p2"))),
        Ok(page(&[], Some("/p3"))),
        Ok(page(&[2], None)),
    ];
    let (ids, asked, failure) = run(listing, answers);
    assert_eq!(ids, vec![1, 2]);
    assert_eq!(asked.len(), 3);
    assert!(failure.is_none());
}

#[test]
fn nothing_is_fetched_after_the_last_page() {
    let listing = client(None).builds("a/b").iter(&ListOptions::default());
    let answers = vec![Ok(page(&[1], None)), Ok(page(&[2], None))];
    let (ids, asked, _) = run(listing, answers);
    assert_eq!(ids, vec![1]);
    assert_eq!(asked.len(), 1);
}

#[test]
fn a_missing_next_pointer_counts_as_none() {
    let body = format!(
        "{{\"builds\":[{}],\"@pagination\":{{\"count\":1,\"first\":{{\"@href\":\"/first\"}}}}}}",
        build(8)
    );
    let listing = client(None).builds("a/b").iter(&ListOptions::default());
    let (ids, asked, failure) = run(listing, vec![Ok(Response { status: 200, body: body.into_bytes() })]);
    assert_eq!(ids, vec![8]);
    assert_eq!(asked.len(), 1);
    assert!(failure.is_none());
}

#[test]
fn a_fault_on_a_later_page_ends_the_listing_with_that_fault() {
    let listing = client(None).builds("a/b").iter(&ListOptions::default());
    let answers = vec![
        Ok(page(&[1, 2], Some("/p2"))),
        Ok(Response { status: 429, body: b"{\"error_message\":\"slow down\"}".to_vec() }),
    ];
    let (ids, asked, failure) = run(listing, answers);
    assert_eq!(ids, vec![1, 2]);
    assert_eq!(asked.len(), 2);
    match failure {
        Some(Error::Fault { code, error }) => {
            assert_eq!(code, 429);
            assert_eq!(error, "slow down");
        }
        other => panic!("expected a fault, got {:?}", other),
    }
}

#[test]
fn a_request_that_could_not_be_sent_ends_the_listing() {
    let listing = client(None).builds("a/b").iter(&ListOptions::default());
    let answers = vec![Err(Error::Transport(String::from("no route to host")))];
    let (ids, asked, failure) = run(listing, answers);
    assert!(ids.is_empty());
    assert_eq!(asked.len(), 1);
    assert!(matches!(failure, Some(Error::Transport(reason)) if reason == "no route to host"));
}

#[test]
fn a_page_that_does_not_decode_ends_the_listing() {
    let listing = client(None).builds("a/b").iter(&ListOptions::default());
    let answers = vec![
        Ok(page(&[1], Some("/p2"))),
        Ok(Response { status: 200, body: b"{\"builds\":[]}".to_vec() }),
    ];
    let (ids, _, failure) = run(listing, answers);
    assert_eq!(ids, vec![1]);
    match failure {
        Some(Error::Codec { raw }) => assert_eq!(raw, b"{\"builds\":[]}".to_vec()),
        other => panic!("expected a codec error, got {:?}", other),
    }
}

#[test]
fn a_next_pointer_that_gives_no_address_ends_the_listing() {
    let listing = client(None).builds("a/b").iter(&ListOptions::default());
    let (ids, asked, failure) = run(listing, vec![Ok(page(&[1], Some("/p 2")))]);
    assert_eq!(ids, vec![1]);
    assert_eq!(asked.len(), 1);
    assert!(matches!(failure, Some(Error::Uri(text)) if text == "https://travis.example/p 2"));
}

#[test]
fn a_listing_that_failed_stays_done() {
    let mut listing = client(None).builds("a/b").iter(&ListOptions::default());
    assert!(matches!(listing.step(), Step::Send(_)));
    assert!(listing.receive(Err(Error::Transport(String::from("x")))).is_err());
    assert!(matches!(listing.step(), Step::Done));
    assert!(matches!(listing.step(), Step::Done));
}

#[test]
fn letting_go_of_a_listing_after_the_first_page_sends_one_request_only() {
    let mut listing = client(None).builds("a/b").iter(&ListOptions::default());
    let mut sent = 0;
    match listing.step() {
        Step::Send(_) => sent += 1,
        other => panic!("expected a request, got {:?}", other),
    }
    listing.receive(Ok(page(&[1, 2], Some("/p2")))).unwrap();
    for expected in [1usize, 2] {
        match listing.step() {
            Step::Item(b) => assert_eq!(b.id, expected),
            Step::Send(_) => sent += 1,
            other => panic!("unexpected {:?}", other),
        }
    }
    drop(listing);
    assert_eq!(sent, 1);
}

#[test]
fn the_items_of_a_listing_are_decoded() {
    let mut listing = client(None).builds("a/b").iter(&ListOptions::default());
    assert!(matches!(listing.step(), Step::Send(_)));
    listing.receive(Ok(page(&[5], None))).unwrap();
    match listing.step() {
        Step::Item(b) => {
            assert_eq!(b.id, 5);
            assert_eq!(b.number, "5");
            assert_eq!(b.state, State::Passed);
            assert_eq!(b.branch.name, "master");
            assert_eq!(b.created_by.login, "me");
        }
        other => panic!("expected an item, got {:?}", other),
    }
}

#[test]
fn repositories_are_listed_page_after_page() {
    let repo = |id: usize| {
        format!(
            "{{\"id\":{id},\"name\":\"n{id}\",\"slug\":\"o/n{id}\",\"active\":true,\"private\":false,\
             \"owner\":{{\"id\":1,\"login\":\"o\"}},\"@permissions\":{{\"read\":true,\"admin\":false,\
             \"activate\":false,\"deactivate\":false,\"star\":true,\"unstar\":true,\"create_cron\":false,\
             \"create_env_var\":false,\"create_key_pair\":false,\"delete_key_pair\":false,\
             \"create_request\":false}},\"starred\":false}}"
        )
    };
    let body = |ids: &[usize], next: &str| {
        let items: Vec<String> = ids.iter().map(|i| repo(*i)).collect();
        format!(
            "{{\"repositories\":[{}],\"@pagination\":{{\"count\":3,\"first\":{{\"@href\":\"/f\"}},\"next\":{}}}}}",
            items.join(","),
            next
        )
        .into_bytes()
    };
    let travis = client(None);
    let mut listing = travis.repos().iter("o", &travis::repos::ListOptions::default());
    let mut names = Vec::new();
    let mut asked = Vec::new();
    let mut answers = vec![
        Response { status: 200, body: body(&[1, 2], "{\"@href\":\"/owner/o/repos?offset=2\"}") },
        Response { status: 200, body: body(&[3], "null") },
    ]
    .into_iter();
    loop {
        match listing.step() {
            Step::Item(r) => names.push(r.name),
            Step::Send(request) => {
                asked.push(request.uri);
                listing.receive(Ok(answers.next().unwrap())).unwrap();
            }
            Step::Failed(e) => panic!("failed: {:?}", e),
            Step::Done => break,
        }
    }
    assert_eq!(names, vec!["n1", "n2", "n3"]);
    assert_eq!(asked.len(), 2);
    assert!(asked[0].starts_with("https://travis.example/owner/o/repos?"));
    assert_eq!(asked[1], "https://travis.example/owner/o/repos?offset=2");
}

#[test]
fn a_listing_of_any_decodable_items_under_any_key() {
    let mut listing: Listing<usize> = Listing::new(client(None), "numbers", String::from("/numbers?from=0"));
    let mut asked = Vec::new();
    let mut seen = Vec::new();
    let mut answers = vec![
        "{\"numbers\":[0,1],\"@pagination\":{\"count\":3,\"first\":{\"@href\":\"/numbers\"},\"next\":{\"@href\":\"/numbers?from=2\"}}}",
        "{\"numbers\":[2],\"@pagination\":{\"count\":3,\"first\":{\"@href\":\"/numbers\"},\"next\":null}}",
    ]
    .into_iter();
    loop {
        match listing.step() {
            Step::Item(n) => seen.push(n),
            Step::Send(request) => {
                asked.push(request.uri);
                let body = answers.next().unwrap().as_bytes().to_vec();
                listing.receive(Ok(Response { status: 200, body })).unwrap();
            }
            Step::Failed(e) => panic!("failed: {:?}", e),
            Step::Done => break,
        }
    }
    assert_eq!(seen, vec![0, 1, 2]);
    assert_eq!(asked, vec!["https://travis.example/numbers?from=0", "https://travis.example/numbers?from=2"]);
}
