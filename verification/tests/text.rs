use pixeldrain::text::{
    chars_of, contains_text, decimal, digit_str, has_prefix, is_blank, is_whitespace, matches_at,
    signed_decimal, tail_from,
};

#[test]
fn decimal_renders_numbers() {
    assert_eq!(decimal(0), "0");
    assert_eq!(decimal(7), "7");
    assert_eq!(decimal(10), "10");
    assert_eq!(decimal(404), "404");
    assert_eq!(decimal(1048576), "1048576");
    assert_eq!(decimal(u64::MAX), "18446744073709551615");
    assert_eq!(digit_str(9), "9");
    assert_eq!(signed_decimal(0), "0");
    assert_eq!(signed_decimal(17), "17");
    assert_eq!(signed_decimal(-17), "-17");
    assert_eq!(signed_decimal(i32::MAX), "2147483647");
    assert_eq!(signed_decimal(i32::MIN), "-2147483648");
}

#[test]
fn search_finds_text_anywhere() {
    assert!(contains_text("abcdef", "cd"));
    assert!(contains_text("abcdef", "abcdef"));
    assert!(contains_text("abcdef", "f"));
    assert!(contains_text("abcdef", ""));
    assert!(contains_text("", ""));
    assert!(!contains_text("abcdef", "ce"));
    assert!(!contains_text("abc", "abcd"));
    assert!(!contains_text("", "a"));
    assert!(contains_text("héllo wörld", "wör"));
}

#[test]
fn prefixes_and_tails() {
    assert!(has_prefix("/u/abc", "/u/"));
    assert!(has_prefix("/u/", "/u/"));
    assert!(!has_prefix("/u", "/u/"));
    assert!(!has_prefix("/x/abc", "/u/"));
    assert!(has_prefix("anything", ""));
    assert_eq!(tail_from("/u/abc", 3), "abc");
    assert_eq!(tail_from("äöü", 1), "öü");
    assert_eq!(tail_from("abc", 3), "");
    let hay = chars_of("hello");
    let needle = chars_of("llo");
    assert_eq!(hay, vec!['h', 'e', 'l', 'l', 'o']);
    assert!(matches_at(&hay, &needle, 2));
    assert!(!matches_at(&hay, &needle, 1));
    assert!(!matches_at(&hay, &needle, 3));
    assert!(!matches_at(&needle, &hay, 0));
}

#[test]
fn blank_means_only_white_space() {
    assert!(is_blank(""));
    assert!(is_blank(" \t\r\n"));
    assert!(is_blank("\u{a0}\u{2003}\u{3000}"));
    assert!(!is_blank(" {} "));
    assert!(!is_blank("\u{200b}"));
    for c in ['\u{0}', ' ', '\t', '\n', '\u{b}', '\u{c}', '\r', '\u{85}', '\u{a0}', '\u{1680}',
        '\u{2000}', '\u{200a}', '\u{200b}', '\u{2028}', '\u{2029}', '\u{202f}', '\u{205f}',
        '\u{3000}', 'a', '0', '\u{feff}']
    {
        assert_eq!(is_whitespace(c), c.is_whitespace());
    }
}
