use kingdom_notice::text::{trim_str, str_eq, contains_sub, ascii_lowercase};
use kingdom_notice::num::parse_i64;
use kingdom_notice::datetime::parse_board_datetime;

#[test]
fn trim_removes_outer_whitespace() {
    assert_eq!(trim_str("  a b  "), "a b");
    assert_eq!(trim_str("\t\nhello\r\n"), "hello");
    assert_eq!(trim_str("   "), "");
    assert_eq!(trim_str(""), "");
    assert_eq!(trim_str("no-trim"), "no-trim");
}

#[test]
fn trim_handles_unicode_whitespace() {
    assert_eq!(trim_str("\u{a0}공지\u{3000}"), "공지");
}

#[test]
fn str_eq_compares_characters() {
    assert!(str_eq("br", "br"));
    assert!(!str_eq("br", "b"));
    assert!(!str_eq("br", "bR"));
}

#[test]
fn contains_finds_substrings() {
    assert!(contains_sub("text/html; charset=utf-8", "utf-8"));
    assert!(!contains_sub("text/html; charset=euc-kr", "utf-8"));
    assert!(contains_sub("abc", ""));
    assert!(!contains_sub("ab", "abc"));
}

#[test]
fn lowercase_maps_ascii_only() {
    assert_eq!(ascii_lowercase("Text/HTML; MS949"), "text/html; ms949");
    assert_eq!(ascii_lowercase("한글 UTF-8"), "한글 utf-8");
}

#[test]
fn parse_i64_accepts_what_std_accepts() {
    assert_eq!(parse_i64("123"), Some(123));
    assert_eq!(parse_i64("+7"), Some(7));
    assert_eq!(parse_i64("-5"), Some(-5));
    assert_eq!(parse_i64("0"), Some(0));
    assert_eq!(parse_i64("9223372036854775807"), Some(i64::MAX));
    assert_eq!(parse_i64("-9223372036854775808"), Some(i64::MIN));
}

#[test]
fn parse_i64_rejects_what_std_rejects() {
    assert_eq!(parse_i64(""), None);
    assert_eq!(parse_i64("+"), None);
    assert_eq!(parse_i64("12a"), None);
    assert_eq!(parse_i64(" 12"), None);
    assert_eq!(parse_i64("9223372036854775808"), None);
    assert_eq!(parse_i64("-9223372036854775809"), None);
}

#[test]
fn datetime_parses_the_fixed_pattern() {
    // 1970-01-01 09:00 at UTC+9 is the epoch itself.
    assert_eq!(parse_board_datetime("1970.01.01. 09:00"), Some(0));
    // Leap day of a leap year.
    assert_eq!(parse_board_datetime("2024.02.29. 00:00"), Some(1709164800 - 32400));
}

#[test]
fn datetime_rejects_malformed_text() {
    assert_eq!(parse_board_datetime("2023.02.29. 10:00"), None); // no leap day
    assert_eq!(parse_board_datetime("2023.13.01. 10:00"), None);
    assert_eq!(parse_board_datetime("2023.11.03 09:15"), None); // missing dot
    assert_eq!(parse_board_datetime("2023.11.03. 24:00"), None);
    assert_eq!(parse_board_datetime("2023.11.03. 09:60"), None);
    assert_eq!(parse_board_datetime(""), None);
}
