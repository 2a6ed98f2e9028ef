use travis::escape::{escape, needs_escape};
use travis::text::{decimal_string, join, signed_decimal_string};

#[test]
fn decimal_of_small_and_large_numbers() {
    assert_eq!(decimal_string(0), "0");
    assert_eq!(decimal_string(7), "7");
    assert_eq!(decimal_string(10), "10");
    assert_eq!(decimal_string(1234567890), "1234567890");
    assert_eq!(decimal_string(u64::MAX), "18446744073709551615");
}

#[test]
fn signed_decimal_has_a_minus_sign() {
    assert_eq!(signed_decimal_string(25), "25");
    assert_eq!(signed_decimal_string(0), "0");
    assert_eq!(signed_decimal_string(-1), "-1");
    assert_eq!(signed_decimal_string(i32::MAX), "2147483647");
    assert_eq!(signed_decimal_string(i32::MIN), "-2147483648");
}

#[test]
fn join_puts_the_separator_between_neighbours() {
    assert_eq!(join(&vec![], ","), "");
    assert_eq!(join(&vec![String::from("a")], ","), "a");
    assert_eq!(join(&vec![String::from("a"), String::from("b"), String::from("c")], ","), "a,b,c");
    assert_eq!(join(&vec![String::new(), String::new()], ", "), ", ");
}

#[test]
fn escape_leaves_plain_text_alone() {
    assert_eq!(escape("rust-lang"), "rust-lang");
    assert_eq!(escape("a.b_c~d-e"), "a.b_c~d-e");
    assert_eq!(escape(""), "");
}

#[test]
fn escape_encodes_the_slash_of_a_slug() {
    assert_eq!(escape("softprops/travis"), "softprops%2Ftravis");
}

#[test]
fn escape_encodes_what_a_path_segment_cannot_hold() {
    assert_eq!(escape("a b"), "a%20b");
    assert_eq!(escape("50%"), "50%25");
    assert_eq!(escape("a?b#c"), "a%3Fb%23c");
    assert_eq!(escape("\"<>`{}"), "%22%3C%3E%60%7B%7D");
    assert_eq!(escape("\n\t\u{7f}"), "%0A%09%7F");
}

#[test]
fn escape_encodes_every_byte_outside_ascii() {
    assert_eq!(escape("\u{e9}"), "%C3%A9");
    assert_eq!(escape("\u{20ac}/x"), "%E2%82%AC%2Fx");
}

#[test]
fn needs_escape_names_the_set() {
    for b in 0u8..=255 {
        let expected = b < 0x20 || b >= 0x7f || b" \"#%/<>?`{}".contains(&b);
        assert_eq!(needs_escape(b), expected, "byte {}", b);
    }
}

const FRAGMENT: &percent_encoding::AsciiSet =
    &percent_encoding::CONTROLS.add(b' ').add(b'"').add(b'<').add(b'>').add(b'`');
const PATH: &percent_encoding::AsciiSet = &FRAGMENT.add(b'#').add(b'?').add(b'{').add(b'}');
const PATH_SEGMENT: &percent_encoding::AsciiSet = &PATH.add(b'/').add(b'%');

#[test]
fn escape_agrees_with_the_path_segment_set() {
    let mut samples: Vec<String> = (0u32..0x250).filter_map(char::from_u32).map(String::from).collect();
    samples.push(String::from("softprops/travis"));
    samples.push(String::from("a b/c%d?e#f{g}h<i>j`k\"l"));
    samples.push(String::from("\u{1f600}/\u{20ac}\u{0}\u{7f}\u{80}\u{ffff}"));
    for sample in samples {
        let expected = percent_encoding::utf8_percent_encode(&sample, PATH_SEGMENT).to_string();
        assert_eq!(escape(&sample), expected, "for {:?}", sample);
    }
}

#[test]
fn decimal_agrees_with_the_standard_rendering() {
    for n in [0u64, 1, 9, 10, 11, 99, 100, 101, 999, 1000, 65535, 65536, 4294967295, 4294967296, u64::MAX - 1, u64::MAX] {
        assert_eq!(decimal_string(n), n.to_string());
    }
    for n in [0i32, 1, -1, 9, -9, 10, -10, 25, 100, -100, 2147483646, i32::MAX, i32::MIN, i32::MIN + 1] {
        assert_eq!(signed_decimal_string(n), n.to_string());
    }
}

#[test]
fn join_agrees_with_the_standard_join() {
    let lists: Vec<Vec<String>> = vec![
        vec![],
        vec![String::from("build.jobs")],
        vec![String::from("build.jobs"), String::from("build.commit")],
        vec![String::new(), String::from("x"), String::new()],
    ];
    for list in lists {
        assert_eq!(join(&list, ","), list.join(","));
        assert_eq!(join(&list, ""), list.join(""));
        assert_eq!(join(&list, " and "), list.join(" and "));
    }
}
