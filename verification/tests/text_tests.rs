use service_core::decimal::{parse_i32, parse_u16, render_u64};
use service_core::text::{contains, is_blank, remove_all, starts_with, trim};

#[test]
fn trims_ascii_and_unicode_space() {
    assert_eq!(trim("  hello world \t\n"), "hello world");
    assert_eq!(trim("\u{3000}x\u{a0}"), "x");
    assert_eq!(trim(" \u{2003} "), "");
    assert_eq!(trim(""), "");
    assert_eq!(trim("a  b"), "a  b");
}

#[test]
fn blank_means_only_white_space() {
    assert!(is_blank(""));
    assert!(is_blank(" \t "));
    assert!(!is_blank(" a "));
    assert!(!is_blank("\u{200b}"));
}

#[test]
fn finds_substrings() {
    assert!(contains("query { __schema }", "__schema"));
    assert!(!contains("query { users }", "__schema"));
    assert!(contains("abc", ""));
    assert!(contains("", ""));
    assert!(!contains("", "a"));
    assert!(contains("UNIQUE", "UNIQUE"));
    assert!(starts_with("Bearer abc", "Bearer "));
    assert!(!starts_with("bearer abc", "Bearer "));
    assert!(!starts_with("Bear", "Bearer "));
}

#[test]
fn removes_every_occurrence() {
    assert_eq!(remove_all("aXXbXXc", "XX"), "abc");
    assert_eq!(remove_all("aaa", "aa"), "a");
    assert_eq!(remove_all("abc", ""), "abc");
    assert_eq!(remove_all("abc", "abcd"), "abc");
    assert_eq!(remove_all("ababab", "ab"), "");
    assert_eq!(remove_all("héllo wörld", "ö"), "héllo wrld");
}

#[test]
fn parses_decimal_integers_like_std() {
    for text in ["0", "7", "+7", "-7", "007", "2147483647", "2147483648", "-2147483648",
        "-2147483649", "", "+", "-", "1a", " 1", "1 ", "--1", "+-1", "99999999999999999999", "١٢"]
    {
        assert_eq!(parse_i32(text), text.parse::<i32>().ok(), "i32 of {:?}", text);
        assert_eq!(parse_u16(text), text.parse::<u16>().ok(), "u16 of {:?}", text);
    }
    assert_eq!(parse_u16("65535"), Some(65535));
    assert_eq!(parse_u16("65536"), None);
    assert_eq!(parse_u16("-0"), None);
    assert_eq!(parse_i32("-0"), Some(0));
}

#[test]
fn renders_decimal_integers_like_std() {
    for n in [0u64, 1, 9, 10, 11, 99, 100, 3000, 65535, 4294967296, u64::MAX] {
        assert_eq!(render_u64(n), n.to_string());
    }
}
