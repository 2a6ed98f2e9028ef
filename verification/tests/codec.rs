use travis::{Error, State};
use travis::codec::{
    decode, decode_list, found_or_codec, list, list_at, optional_member, read_text_member,
    required_member, FromJson,
};
use travis::model::{Branch, Owner};
use travis::pagination::{decode_page, envelope, Page, Pagination};
use travis::response::fault_with;

fn value(text: &str) -> serde_json::Value {
    serde_json::from_str(text).unwrap()
}

#[test]
fn a_body_decodes_as_the_type_asked_for() {
    let owner: Owner = decode(b"{\"id\":4,\"login\":\"me\",\"more\":true}".to_vec()).unwrap();
    assert_eq!((owner.id, owner.login.as_str()), (4, "me"));
    let branch: Branch = decode(b" {\"name\":\"main\"}\n".to_vec()).unwrap();
    assert_eq!(branch.name, "main");
    let state: State = decode(b"\"started\"".to_vec()).unwrap();
    assert_eq!(state, State::Started);
    let n: usize = decode(b"17".to_vec()).unwrap();
    assert_eq!(n, 17);
    let b: bool = decode(b"true".to_vec()).unwrap();
    assert!(b);
    let s: String = decode(b"\"x\\u0041\"".to_vec()).unwrap();
    assert_eq!(s, "xA");
}

#[test]
fn a_body_of_another_shape_is_a_codec_error_with_the_bytes() {
    for body in ["", "{", "[]", "null", "{\"id\":4}", "{\"id\":\"4\",\"login\":\"me\"}", "{\"id\":4,\"login\":\"me\"} x"] {
        match decode::<Owner>(body.as_bytes().to_vec()) {
            Err(Error::Codec { raw }) => assert_eq!(raw, body.as_bytes().to_vec()),
            other => panic!("expected a codec error for {:?}, got {:?}", body, other),
        }
    }
    assert!(matches!(decode::<usize>(b"-1".to_vec()), Err(Error::Codec { .. })));
    assert!(matches!(decode::<usize>(b"1.0".to_vec()), Err(Error::Codec { .. })));
    assert!(matches!(decode::<usize>(b"\"1\"".to_vec()), Err(Error::Codec { .. })));
    assert!(matches!(decode::<bool>(b"1".to_vec()), Err(Error::Codec { .. })));
    assert!(matches!(decode::<String>(b"true".to_vec()), Err(Error::Codec { .. })));
    assert!(matches!(decode::<State>(b"\"STARTED\"".to_vec()), Err(Error::Codec { .. })));
}

#[test]
fn found_or_codec_keeps_what_was_read() {
    assert_eq!(found_or_codec(b"body".to_vec(), Some(5u8)).unwrap(), 5);
    match found_or_codec::<u8>(b"body".to_vec(), None) {
        Err(Error::Codec { raw }) => assert_eq!(raw, b"body".to_vec()),
        other => panic!("expected a codec error, got {:?}", other),
    }
}

#[test]
fn fault_with_prefers_the_message() {
    match fault_with(400, b"raw".to_vec(), Some(String::from("why"))) {
        Error::Fault { code, error } => assert_eq!((code, error.as_str()), (400, "why")),
        other => panic!("expected a fault, got {:?}", other),
    }
    match fault_with(400, b"raw".to_vec(), None) {
        Error::Codec { raw } => assert_eq!(raw, b"raw".to_vec()),
        other => panic!("expected a codec error, got {:?}", other),
    }
}

#[test]
fn required_members_must_be_there() {
    let v = value("{\"a\":\"x\",\"n\":3,\"b\":false,\"z\":null}");
    assert_eq!(required_member::<String>(&v, "a"), Some(String::from("x")));
    assert_eq!(required_member::<usize>(&v, "n"), Some(3));
    assert_eq!(required_member::<bool>(&v, "b"), Some(false));
    assert_eq!(required_member::<String>(&v, "missing"), None);
    assert_eq!(required_member::<String>(&v, "z"), None);
    assert_eq!(required_member::<String>(&v, "n"), None);
    assert_eq!(required_member::<String>(&value("[\"a\"]"), "a"), None);
}

#[test]
fn optional_members_may_be_missing_or_null() {
    let v = value("{\"a\":\"x\",\"n\":3,\"z\":null}");
    assert_eq!(optional_member::<String>(&v, "a"), Some(Some(String::from("x"))));
    assert_eq!(optional_member::<String>(&v, "missing"), Some(None));
    assert_eq!(optional_member::<String>(&v, "z"), Some(None));
    assert_eq!(optional_member::<String>(&v, "n"), None);
    assert_eq!(optional_member::<usize>(&v, "n"), Some(Some(3)));
    assert_eq!(optional_member::<usize>(&value("7"), "n"), Some(None));
}

#[test]
fn lists_decode_element_by_element() {
    assert_eq!(list::<usize>(&value("[1,2,3]")), Some(vec![1, 2, 3]));
    assert_eq!(list::<usize>(&value("[]")), Some(vec![]));
    assert_eq!(list::<usize>(&value("[1,\"2\",3]")), None);
    assert_eq!(list::<usize>(&value("{\"0\":1}")), None);
    assert_eq!(list_at::<String>(&value("{\"k\":[\"b\",\"a\"]}"), "k"), Some(vec![String::from("b"), String::from("a")]));
    assert_eq!(list_at::<String>(&value("{\"k\":null}"), "k"), None);
    assert_eq!(list_at::<String>(&value("{}"), "k"), None);
    assert_eq!(decode_list::<bool>(b"{\"flags\":[true,false]}".to_vec(), "flags").unwrap(), vec![true, false]);
    assert!(matches!(decode_list::<bool>(b"{\"flags\":[1]}".to_vec(), "flags"), Err(Error::Codec { .. })));
}

#[test]
fn text_members_of_a_body() {
    assert_eq!(read_text_member(b"{\"k\":\"v\"}", "k").as_deref(), Some("v"));
    assert_eq!(read_text_member(b"{\"k\":\"v\",\"k\":\"w\"}", "k").as_deref(), Some("w"));
    assert_eq!(read_text_member(b"{\"k\":1}", "k"), None);
    assert_eq!(read_text_member(b"{\"K\":\"v\"}", "k"), None);
    assert_eq!(read_text_member(b"\"k\"", "k"), None);
    assert_eq!(read_text_member(b"", "k"), None);
}

#[test]
fn pagination_decodes_with_and_without_a_next_page() {
    let with: Pagination = Pagination::from_json(&value(
        "{\"count\":12,\"first\":{\"@href\":\"/a\"},\"next\":{\"@href\":\"/a?offset=5\",\"offset\":5},\"limit\":5}",
    ))
    .unwrap();
    assert_eq!(with.count, 12);
    assert_eq!(with.first.href, "/a");
    assert_eq!(with.next.map(|p| p.href), Some(String::from("/a?offset=5")));
    let last = Pagination::from_json(&value("{\"count\":12,\"first\":{\"@href\":\"/a\"},\"next\":null}")).unwrap();
    assert!(last.next.is_none());
    let bare = Pagination::from_json(&value("{\"count\":0,\"first\":{\"@href\":\"/a\"}}")).unwrap();
    assert!(bare.next.is_none());
    assert!(Pagination::from_json(&value("{\"first\":{\"@href\":\"/a\"}}")).is_none());
    assert!(Pagination::from_json(&value("{\"count\":1}")).is_none());
    assert!(Pagination::from_json(&value("{\"count\":1,\"first\":{\"@href\":\"/a\"},\"next\":\"/b\"}")).is_none());
    assert!(Pagination::from_json(&value("{\"count\":1,\"first\":{\"@href\":\"/a\"},\"next\":{}}")).is_none());
    assert!(Page::from_json(&value("{\"href\":\"/a\"}")).is_none());
}

#[test]
fn a_page_holds_items_and_pagination() {
    let body = b"{\"things\":[3,1,2],\"@pagination\":{\"count\":3,\"first\":{\"@href\":\"/t\"},\"next\":{\"@href\":\"/t?o=3\"}}}";
    let page = decode_page::<usize>(body.to_vec(), "things").unwrap();
    assert_eq!(page.items, vec![3, 1, 2]);
    assert_eq!(page.pagination.count, 3);
    assert_eq!(page.pagination.next.as_ref().map(|p| p.href.as_str()), Some("/t?o=3"));
    assert!(matches!(decode_page::<usize>(body.to_vec(), "other"), Err(Error::Codec { .. })));
    assert!(envelope::<usize>(&value("{\"things\":[1]}"), "things").is_none());
    assert!(envelope::<usize>(&value("{\"@pagination\":{\"count\":0,\"first\":{\"@href\":\"/t\"}}}"), "things").is_none());
}

#[test]
fn the_message_of_a_fault() {
    let fault = Error::Fault { code: 500, error: String::from("down") };
    assert_eq!(fault.fault_message().map(|m| m.as_str()), Some("down"));
    assert_eq!(Error::Uri(String::from("x")).fault_message(), None);
    assert_eq!(Error::Transport(String::from("x")).fault_code(), None);
}
