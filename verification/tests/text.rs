use workspace_core::text::{
    contains_text, ends_with, first_chars, is_space_char, join, normalize, same_text, trim,
};

#[test]
fn trim_removes_surrounding_white_space() {
    assert_eq!(trim("  /tmp/repo  "), "/tmp/repo");
    assert_eq!(trim("\t\n /a b/ \r\n"), "/a b/");
    assert_eq!(trim(""), "");
    assert_eq!(trim(" \u{3000}\u{a0} "), "");
    assert_eq!(trim("x"), "x");
}

#[test]
fn trim_keeps_inner_white_space() {
    assert_eq!(trim("  a  b  "), "a  b");
    assert_eq!(trim("a\tb"), "a\tb");
}

#[test]
fn trim_agrees_with_the_standard_library() {
    let samples = [
        "",
        " ",
        "a",
        " a",
        "a ",
        " a b ",
        "\u{2003}é\u{2003}",
        "\u{85}路径\u{1680}",
        "\u{200b}x\u{200b}",
        "\u{feff}x",
        "\u{180e}x\u{180e}",
    ];
    for s in samples {
        assert_eq!(trim(s), s.trim());
    }
}

#[test]
fn white_space_is_the_unicode_property() {
    let mut n: u32 = 0;
    while n <= 0x10ffff {
        if let Some(c) = char::from_u32(n) {
            assert_eq!(is_space_char(c), c.is_whitespace(), "code point {:x}", n);
        }
        n += 1;
    }
}

#[test]
fn normalize_gives_nothing_for_blank_text() {
    assert_eq!(normalize(""), None);
    assert_eq!(normalize("   "), None);
    assert_eq!(normalize("\n\t"), None);
    assert_eq!(normalize(" a "), Some("a".to_string()));
    assert_eq!(normalize("a"), Some("a".to_string()));
}

#[test]
fn same_text_compares_characters() {
    assert!(same_text("abc", "abc"));
    assert!(same_text("", ""));
    assert!(!same_text("abc", "abd"));
    assert!(!same_text("abc", "ab"));
    assert!(!same_text("main", "Main"));
}

#[test]
fn contains_text_finds_an_equal_entry() {
    let list = vec!["/a".to_string(), "/b".to_string()];
    assert!(contains_text(&list, "/a"));
    assert!(contains_text(&list, "/b"));
    assert!(!contains_text(&list, "/c"));
    assert!(!contains_text(&list, "/A"));
    assert!(!contains_text(&Vec::new(), "/a"));
}

#[test]
fn ends_with_tests_the_suffix() {
    assert!(ends_with("origin/HEAD", "/HEAD"));
    assert!(ends_with("/HEAD", "/HEAD"));
    assert!(!ends_with("HEAD", "/HEAD"));
    assert!(!ends_with("origin/HEADS", "/HEAD"));
    assert!(!ends_with("origin/head", "/HEAD"));
    assert!(ends_with("anything", ""));
    assert!(ends_with("é/HEAD", "/HEAD"));
}

#[test]
fn first_chars_takes_a_prefix() {
    assert_eq!(first_chars("0123456789", 7), "0123456");
    assert_eq!(first_chars("0123456", 7), "0123456");
    assert_eq!(first_chars("012", 7), "012");
    assert_eq!(first_chars("", 7), "");
    assert_eq!(first_chars("ééééééééé", 7), "ééééééé");
    assert_eq!(first_chars("abc", 0), "");
}

#[test]
fn join_puts_two_texts_together() {
    assert_eq!(join("refs/heads/", "main"), "refs/heads/main");
    assert_eq!(join("", ""), "");
    assert_eq!(join("a", ""), "a");
}
