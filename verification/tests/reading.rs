use consolekit::numparse::parse_i32;
use consolekit::text::{str_eq, str_eq_ignore_ascii_case};

#[test]
fn plain_numbers_parse() {
    assert_eq!(parse_i32("42"), Some(42));
    assert_eq!(parse_i32("0"), Some(0));
    assert_eq!(parse_i32("101"), Some(101));
    assert_eq!(parse_i32("007"), Some(7));
}

#[test]
fn signs_are_accepted() {
    assert_eq!(parse_i32("-17"), Some(-17));
    assert_eq!(parse_i32("+5"), Some(5));
    assert_eq!(parse_i32("-0"), Some(0));
}

#[test]
fn malformed_text_is_refused() {
    assert_eq!(parse_i32(""), None);
    assert_eq!(parse_i32("-"), None);
    assert_eq!(parse_i32("+"), None);
    assert_eq!(parse_i32("abc"), None);
    assert_eq!(parse_i32("12a"), None);
    assert_eq!(parse_i32("1 2"), None);
    assert_eq!(parse_i32("4.5"), None);
    assert_eq!(parse_i32("--4"), None);
}

#[test]
fn range_limits_are_exact() {
    assert_eq!(parse_i32("2147483647"), Some(i32::MAX));
    assert_eq!(parse_i32("2147483648"), None);
    assert_eq!(parse_i32("-2147483648"), Some(i32::MIN));
    assert_eq!(parse_i32("-2147483649"), None);
    assert_eq!(parse_i32("99999999999999999999"), None);
}

#[test]
fn parsing_agrees_with_the_standard_library() {
    for s in ["42", "-42", "+0", "2147483648", "x", "", "00123", "-2147483648"] {
        assert_eq!(parse_i32(s), s.parse::<i32>().ok());
    }
}

#[test]
fn string_equality_is_exact() {
    assert!(str_eq("abc", "abc"));
    assert!(!str_eq("abc", "abd"));
    assert!(!str_eq("abc", "ab"));
    assert!(str_eq("", ""));
}

#[test]
fn case_insensitive_match_covers_ascii_only() {
    assert!(str_eq_ignore_ascii_case("FaHrEnHeIt", "fahrenheit"));
    assert!(str_eq_ignore_ascii_case("", ""));
    assert!(!str_eq_ignore_ascii_case("fahrenheit", "celsius"));
    assert!(!str_eq_ignore_ascii_case("a", "b"));
    assert!(str_eq_ignore_ascii_case("Z", "z"));
}
