use desk_backend::text::{chars_of, contains, decimal, join, same_text};

#[test]
fn chars_of_keeps_every_character_in_order() {
    assert_eq!(chars_of(""), Vec::<char>::new());
    assert_eq!(chars_of("abc"), vec!['a', 'b', 'c']);
    assert_eq!(chars_of("h\u{e9}llo \u{2713}"), vec!['h', '\u{e9}', 'l', 'l', 'o', ' ', '\u{2713}']);
}

#[test]
fn contains_finds_a_needle_anywhere() {
    assert!(contains("hello world", "hello"));
    assert!(contains("hello world", "o w"));
    assert!(contains("hello world", "world"));
    assert!(contains("hello world", "hello world"));
}

#[test]
fn contains_rejects_what_is_not_there() {
    assert!(!contains("hello world", "worlds"));
    assert!(!contains("hello world", "hello  world"));
    assert!(!contains("abc", "abcd"));
    assert!(!contains("", "a"));
    assert!(!contains("aab", "aba"));
}

#[test]
fn contains_finds_the_empty_needle() {
    assert!(contains("", ""));
    assert!(contains("abc", ""));
}

#[test]
fn contains_handles_repeats_and_wide_characters() {
    assert!(contains("aaab", "aab"));
    assert!(contains("na\u{ef}ve caf\u{e9}", "caf\u{e9}"));
    assert!(!contains("na\u{ef}ve", "naive"));
}

#[test]
fn contains_agrees_with_the_standard_library() {
    let hays = ["", "a", "ab", "aba", "abab", "could not connect", "xxabxx"];
    let needles = ["", "a", "b", "ab", "ba", "aba", "not", "xx", "xxx"];
    for hay in hays {
        for needle in needles {
            assert_eq!(contains(hay, needle), hay.contains(needle), "{hay:?} / {needle:?}");
        }
    }
}

#[test]
fn same_text_compares_characters() {
    assert!(same_text("", ""));
    assert!(same_text("sqlite", "sqlite"));
    assert!(!same_text("sqlite", "sqlitE"));
    assert!(!same_text("sqlite", "sqlite "));
    assert!(!same_text("sqlite", ""));
    assert!(!same_text("SQLITE", "sqlite"));
}

#[test]
fn join_appends() {
    assert_eq!(join("", ""), "");
    assert_eq!(join("a", ""), "a");
    assert_eq!(join("", "b"), "b");
    assert_eq!(join("left ", "right"), "left right");
}

#[test]
fn decimal_writes_numerals() {
    assert_eq!(decimal(0), "0");
    assert_eq!(decimal(7), "7");
    assert_eq!(decimal(9), "9");
    assert_eq!(decimal(10), "10");
    assert_eq!(decimal(99), "99");
    assert_eq!(decimal(100), "100");
    assert_eq!(decimal(3306), "3306");
    assert_eq!(decimal(5432), "5432");
    assert_eq!(decimal(65535), "65535");
}

#[test]
fn decimal_agrees_with_the_standard_library() {
    let mut n: u16 = 0;
    loop {
        assert_eq!(decimal(n), n.to_string());
        if n > u16::MAX - 37 {
            break;
        }
        n += 37;
    }
}
