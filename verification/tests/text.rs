use identity_aauth::text;

#[test]
fn trimming_follows_unicode_whitespace() {
    assert_eq!(text::trim(" \t\r\n a b \u{3000}\u{a0}"), "a b");
    assert_eq!(text::trim("  "), "");
    assert_eq!(text::trim("\u{200b}a"), "\u{200b}a");
    assert_eq!(text::unquote("\"\"7\""), "7");
}

#[test]
fn trimming_agrees_with_std() {
    for c in (0..=0x10ffffu32).filter_map(char::from_u32) {
        assert_eq!(text::space(c), c.is_whitespace(), "{c:?}");
        assert_eq!(text::lower(c), c.to_ascii_lowercase(), "{c:?}");
    }
}

#[test]
fn case_and_search() {
    assert_eq!(text::to_lower("AbC-\u{c4}"), "abc-\u{c4}");
    assert!(text::eq_ignore_case("Signature-KEY", "signature-key"));
    assert!(!text::eq_ignore_case("a", "ab"));
    assert!(text::contains("token expired now", "expired"));
    assert!(text::contains("x", ""));
    assert!(!text::contains("expire", "expired"));
    assert_eq!(text::strip_prefix("max-age=5", "max-age="), Some("5".to_owned()));
    assert_eq!(text::strip_prefix("max", "max-age="), None);
    assert_eq!(text::strip_suffix("gw:443", ":443"), Some("gw".to_owned()));
    assert_eq!(text::strip_suffix("gw:4430", ":443"), None);
}

#[test]
fn splitting() {
    assert_eq!(text::split("a,,b", ','), vec!["a", "", "b"]);
    assert_eq!(text::split("", ','), vec![""]);
}

#[test]
fn numbers() {
    assert_eq!(text::to_decimal(0), "0");
    assert_eq!(text::to_decimal(u64::MAX), "18446744073709551615");
    for s in ["0", "+7", "007", "", "+", "-1", "1x", "18446744073709551615", "18446744073709551616"] {
        assert_eq!(text::parse_number(s), s.parse::<u64>().ok(), "{s}");
    }
}
