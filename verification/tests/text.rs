use z8_timer::text::{chars, contains, equals, join, starts_with, trim_end};

#[test]
fn chars_are_taken_in_order() {
    assert_eq!(chars("aé😀"), vec!['a', 'é', '😀']);
    assert_eq!(chars(""), Vec::<char>::new());
}

#[test]
fn contains_finds_a_text_anywhere() {
    assert!(contains("connection refused", "connection"));
    assert!(contains("the connection", "connection"));
    assert!(contains("a network b", "network"));
    assert!(contains("abc", ""));
    assert!(contains("", ""));
    assert!(contains("aab", "ab"));
    assert!(contains("ééb", "éb"));
    assert!(!contains("", "a"));
    assert!(!contains("abc", "abcd"));
    assert!(!contains("abc", "ac"));
    assert!(!contains("Connection", "connection"));
}

#[test]
fn equals_compares_every_character() {
    assert!(equals("", ""));
    assert!(equals("z8", "z8"));
    assert!(!equals("z8", "z9"));
    assert!(!equals("z8", "z8 "));
    assert!(!equals("", "a"));
}

#[test]
fn starts_with_looks_at_the_beginning() {
    assert!(starts_with("z8://auth", "z8://"));
    assert!(starts_with("z8://", "z8://"));
    assert!(starts_with("abc", ""));
    assert!(!starts_with("z8:/", "z8://"));
    assert!(!starts_with("az8://", "z8://"));
}

#[test]
fn trim_end_drops_every_slash_at_the_end() {
    assert_eq!(trim_end("https://example.com/", '/'), "https://example.com");
    assert_eq!(trim_end("https://example.com///", '/'), "https://example.com");
    assert_eq!(trim_end("https://example.com", '/'), "https://example.com");
    assert_eq!(trim_end("a/b/", '/'), "a/b");
    assert_eq!(trim_end("///", '/'), "");
    assert_eq!(trim_end("", '/'), "");
    assert_eq!(trim_end("é/", '/'), "é");
}

#[test]
fn join_puts_one_text_after_the_other() {
    assert_eq!(join("Bearer ", "abc"), "Bearer abc");
    assert_eq!(join("", ""), "");
    assert_eq!(join("a", ""), "a");
}
