use hanhcute::text::{decimal_string, is_white_space_char, join_strings, str_eq, trim_str};

#[test]
fn trim_ascii_spaces() {
    assert_eq!(trim_str("  a b \n"), "a b");
}

#[test]
fn trim_unicode_white_space() {
    assert_eq!(trim_str("\u{3000}\u{00A0}text\u{2029}"), "text");
}

#[test]
fn trim_all_blank() {
    assert_eq!(trim_str(" \t\r\n "), "");
}

#[test]
fn trim_matches_std() {
    for s in ["", "x", " x", "x ", "\u{85}mid dle\u{200A}", "\u{200B}zero-width\u{200B}"] {
        assert_eq!(trim_str(s), s.trim());
    }
}

#[test]
fn white_space_matches_std() {
    for c in ['\t', '\n', ' ', '\u{85}', '\u{A0}', '\u{1680}', '\u{2000}', '\u{200A}', '\u{2028}',
        '\u{2029}', '\u{202F}', '\u{205F}', '\u{3000}', 'a', '\u{200B}', '\u{180E}'] {
        assert_eq!(is_white_space_char(c), c.is_whitespace(), "{:?}", c);
    }
}

#[test]
fn decimal_of_numbers() {
    assert_eq!(decimal_string(0), "0");
    assert_eq!(decimal_string(1234567890), "1234567890");
    assert_eq!(decimal_string(u64::MAX), u64::MAX.to_string());
}

#[test]
fn string_equality() {
    assert!(str_eq("zh-Hans", "zh-Hans"));
    assert!(!str_eq("zh", "zh-Hans"));
    assert!(!str_eq("ab", "ac"));
}

#[test]
fn join_with_separator() {
    let words = vec!["alpha".to_string(), "beta".to_string(), "gamma".to_string()];
    assert_eq!(join_strings(&words, ", "), "alpha, beta, gamma");
    assert_eq!(join_strings(&Vec::new(), ", "), "");
}
