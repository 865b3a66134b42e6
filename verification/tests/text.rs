use auto_input::text::{
    contains_char, first_line_trimmed, is_whitespace, parse_u64, starts_with, str_eq, take_chars,
    trim, u64_to_decimal,
};

#[test]
fn parse_accepts_digits_with_optional_plus() {
    assert_eq!(parse_u64("0"), Some(0));
    assert_eq!(parse_u64("42"), Some(42));
    assert_eq!(parse_u64("007"), Some(7));
    assert_eq!(parse_u64("+5"), Some(5));
    assert_eq!(parse_u64("18446744073709551615"), Some(u64::MAX));
}

#[test]
fn parse_rejects_what_std_rejects() {
    for bad in ["", "+", "-", "-1", " 1", "1 ", "1_000", "12a", "++1", "18446744073709551616", "99999999999999999999"] {
        assert_eq!(parse_u64(bad), None, "{:?}", bad);
        assert_eq!(bad.parse::<u64>().ok(), None, "{:?}", bad);
    }
}

#[test]
fn decimal_matches_to_string() {
    for n in [0u64, 9, 10, 50, 305, 10_000, u64::MAX] {
        assert_eq!(u64_to_decimal(n), n.to_string());
        assert_eq!(parse_u64(&u64_to_decimal(n)), Some(n));
    }
}

#[test]
fn trim_matches_std() {
    for s in ["", "  ", " a b ", "\t\r\nx\u{3000}", "\u{85}y\u{a0}", "z"] {
        assert_eq!(trim(s), s.trim());
    }
    for c in ['\t', '\n', '\u{b}', '\u{c}', '\r', ' ', '\u{85}', '\u{a0}', '\u{1680}', '\u{2000}', '\u{200a}', '\u{2028}', '\u{2029}', '\u{202f}', '\u{205f}', '\u{3000}', 'a', '\u{200b}', '\u{feff}'] {
        assert_eq!(is_whitespace(c), c.is_whitespace(), "{:?}", c);
    }
}

#[test]
fn first_line_is_trimmed() {
    assert_eq!(first_line_trimmed("a\nb"), Some("a".to_string()));
    assert_eq!(first_line_trimmed(" a \r\nb"), Some("a".to_string()));
    assert_eq!(first_line_trimmed("\nb"), None);
    assert_eq!(first_line_trimmed(""), None);
}

#[test]
fn prefix_contains_equal_and_take() {
    assert!(starts_with("vmrun 错误", "vmrun"));
    assert!(!starts_with("vm", "vmrun"));
    assert!(starts_with("x", ""));
    assert!(contains_char("完成 ✓", '✓'));
    assert!(!contains_char("完成", '✓'));
    assert!(str_eq("已停止", "已停止"));
    assert!(!str_eq("已停止", "已停"));
    assert_eq!(take_chars("汉字abc", 3), "汉字a");
    assert_eq!(take_chars("ab", 5), "ab");
}
