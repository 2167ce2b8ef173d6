use tkill_ai::text::{
    blank, decimal_text, has_prefix, is_white_space_char, join, join3, last_line_of,
    strip_prefix_repeatedly, trim,
};

#[test]
fn trim_removes_surrounding_white_space() {
    assert_eq!(trim("  hello world \n"), "hello world");
    assert_eq!(trim("\t\r\n"), "");
    assert_eq!(trim(""), "");
    assert_eq!(trim("\u{3000}текст\u{a0}"), "текст");
    assert_eq!(trim("a b"), "a b");
}

#[test]
fn trim_is_idempotent_on_examples() {
    for s in ["  x  ", "\n\ny", "z", " ", "\u{2003}w\u{2003}"] {
        let once = trim(s);
        assert_eq!(trim(&once), once);
    }
}

#[test]
fn white_space_matches_std() {
    for c in ['\t', '\n', ' ', '\u{85}', '\u{a0}', '\u{1680}', '\u{2000}', '\u{200a}', '\u{2028}', '\u{3000}', 'a', '0', '\u{200b}', 'я'] {
        assert_eq!(is_white_space_char(c), c.is_whitespace());
    }
}

#[test]
fn blank_detects_white_space_only() {
    assert!(blank(""));
    assert!(blank("   \n\t"));
    assert!(!blank("  a "));
}

#[test]
fn prefix_checks() {
    assert!(has_prefix("PACKAGE_NOT_INSTALLED:gimp", "PACKAGE_NOT_INSTALLED:"));
    assert!(!has_prefix("PACKAGE", "PACKAGE_NOT_INSTALLED:"));
    assert!(has_prefix("abc", ""));
    assert!(!has_prefix("xabc", "abc"));
}

#[test]
fn repeated_prefix_is_stripped() {
    assert_eq!(strip_prefix_repeatedly("PACKAGE_NOT_INSTALLED:gimp", "PACKAGE_NOT_INSTALLED:"), "gimp");
    assert_eq!(strip_prefix_repeatedly("abababc", "ab"), "c");
    assert_eq!(strip_prefix_repeatedly("xab", "ab"), "xab");
    assert_eq!(strip_prefix_repeatedly("abab", "ab"), "");
    assert_eq!(strip_prefix_repeatedly("abc", ""), "abc");
    assert_eq!(strip_prefix_repeatedly("abababc", "ab"), "abababc".trim_start_matches("ab"));
}

#[test]
fn last_line_like_std_lines() {
    for s in ["", "a", "a\nb", "a\nb\n", "a\r\n", "a\n\n", "\n", "x\r", "one\r\ntwo\r\n", "a\nb\r"] {
        assert_eq!(last_line_of(s), s.lines().last().map(|l| l.to_string()), "for {:?}", s);
    }
}

#[test]
fn decimal_notation() {
    assert_eq!(decimal_text(0), "0");
    assert_eq!(decimal_text(7), "7");
    assert_eq!(decimal_text(42), "42");
    assert_eq!(decimal_text(100), "100");
    assert_eq!(decimal_text(4294967295), "4294967295");
}

#[test]
fn joining_texts() {
    assert_eq!(join("ab", "cd"), "abcd");
    assert_eq!(join3("a", "", "c"), "ac");
}
