use installer::text::{decimal, join, occurs_at, replace_all, same_text, starts_with};

#[test]
fn replaces_every_occurrence() {
    assert_eq!(replace_all("a\\b\\c", "\\", "/"), "a/b/c");
    assert_eq!(replace_all("next_page:/tmp/app", "next_page:", ""), "/tmp/app");
    assert_eq!(replace_all("one\r\ntwo\r\n", "\r", ""), "one\ntwo\n");
    assert_eq!(replace_all("one\ntwo\n", "\n", "\\n"), "one\\ntwo\\n");
}

#[test]
fn replaces_as_the_standard_library_does() {
    let cases = [
        ("", "a", "b"),
        ("aaa", "aa", "b"),
        ("aaaa", "aa", "b"),
        ("abcabc", "abc", ""),
        ("abcab", "abc", "xyz"),
        ("ab", "abc", "x"),
        ("xaxbx", "x", "xx"),
        ("h\u{e9}llo w\u{f6}rld", "\u{f6}", "oe"),
        ("next_page:next_page:/a/next_page:b", "next_page:", ""),
        ("aab", "ab", "c"),
    ];
    for (text, pattern, with) in cases {
        assert_eq!(replace_all(text, pattern, with), text.replace(pattern, with));
    }
}

#[test]
fn occurrences_do_not_overlap() {
    assert_eq!(replace_all("aaa", "aa", "b"), "ba");
    assert_eq!(replace_all("ababa", "aba", "-"), "-ba");
}

#[test]
fn empty_pattern_occurs_nowhere() {
    assert_eq!(replace_all("abc", "", "-"), "abc");
    assert_eq!(replace_all("", "", "-"), "");
}

#[test]
fn finds_a_pattern_where_it_stands() {
    assert!(occurs_at("hello", 0, "he"));
    assert!(occurs_at("hello", 3, "lo"));
    assert!(occurs_at("hello", 5, ""));
    assert!(!occurs_at("hello", 6, ""));
    assert!(!occurs_at("hello", 4, "lo"));
    assert!(!occurs_at("hello", 1, "he"));
    assert!(!occurs_at("hello", usize::MAX, "o"));
    assert!(occurs_at("h\u{e9}llo", 2, "llo"));
}

#[test]
fn tells_a_prefix() {
    assert!(starts_with("next_page:/tmp", "next_page:"));
    assert!(starts_with("next_page:", "next_page:"));
    assert!(starts_with("anything", ""));
    assert!(!starts_with("next_page", "next_page:"));
    assert!(!starts_with(" next_page:", "next_page:"));
}

#[test]
fn tells_equal_texts() {
    assert!(same_text("exit", "exit"));
    assert!(same_text("", ""));
    assert!(!same_text("exit", "exit "));
    assert!(!same_text("exit", "exiT"));
    assert!(!same_text("exit", ""));
}

#[test]
fn joins_with_one_slash() {
    assert_eq!(join("/tmp", "app.zip"), "/tmp/app.zip");
    assert_eq!(join("/tmp/", "app.zip"), "/tmp/app.zip");
    assert_eq!(join("", "app.zip"), "app.zip");
    assert_eq!(join("/", "bin"), "/bin");
    assert_eq!(join(".", "bin"), "./bin");
    assert_eq!(join("./app", ""), "./app/");
}

#[test]
fn writes_numbers_in_decimal() {
    assert_eq!(decimal(0), "0");
    assert_eq!(decimal(7), "7");
    assert_eq!(decimal(10), "10");
    assert_eq!(decimal(20), "20");
    assert_eq!(decimal(80), "80");
    assert_eq!(decimal(99), "99");
    assert_eq!(decimal(100), "100");
    assert_eq!(decimal(105), "105");
    assert_eq!(decimal(255), "255");
    for n in 0..=u8::MAX {
        assert_eq!(decimal(n), n.to_string());
    }
}
