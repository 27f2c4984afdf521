use stock_tracker::config::{file_path, resolve_directory};
use stock_tracker::text::{is_negative_integer, join, parse_u32, text_eq};
use stock_tracker::store::text_less;

#[test]
fn parse_u32_cases() {
    assert_eq!(parse_u32("0"), Some(0));
    assert_eq!(parse_u32("42"), Some(42));
    assert_eq!(parse_u32("+7"), Some(7));
    assert_eq!(parse_u32("007"), Some(7));
    assert_eq!(parse_u32("4294967295"), Some(u32::MAX));
    assert_eq!(parse_u32("4294967296"), None);
    assert_eq!(parse_u32("99999999999999999999"), None);
    assert_eq!(parse_u32(""), None);
    assert_eq!(parse_u32("+"), None);
    assert_eq!(parse_u32("-1"), None);
    assert_eq!(parse_u32("1 "), None);
    assert_eq!(parse_u32("1.5"), None);
}

#[test]
fn negative_integers() {
    assert!(is_negative_integer("-3"));
    assert!(is_negative_integer("-0"));
    assert!(!is_negative_integer("-"));
    assert!(!is_negative_integer("3"));
    assert!(!is_negative_integer("-3a"));
}

#[test]
fn text_helpers() {
    assert!(text_eq("héllo", "héllo"));
    assert!(!text_eq("hello", "hell"));
    assert_eq!(join("ab", "cd"), "abcd");
    assert!(text_less("al", "alice"));
    assert!(text_less("B", "a"));
    assert!(!text_less("b", "b"));
    assert!(!text_less("bob", "al"));
}

#[test]
fn paths() {
    assert_eq!(file_path("/a", "f"), "/a/f");
    assert_eq!(file_path("/a/", "f"), "/a/f");
    assert_eq!(file_path("", "f"), "f");
    assert_eq!(resolve_directory(Some("/x".to_string()), None), Ok("/x".to_string()));
}
