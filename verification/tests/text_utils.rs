use plex_api::text::{parse_u64, u32_to_string, u64_to_string};
use plex_api::query::Query;

#[test]
fn renders_decimal_values() {
    assert_eq!(u64_to_string(0), "0");
    assert_eq!(u64_to_string(7), "7");
    assert_eq!(u64_to_string(100), "100");
    assert_eq!(u64_to_string(18446744073709551615), "18446744073709551615");
    assert_eq!(u32_to_string(4294967295), "4294967295");
}

#[test]
fn parses_decimal_values() {
    assert_eq!(parse_u64("0"), Some(0));
    assert_eq!(parse_u64("12345"), Some(12345));
    assert_eq!(parse_u64("007"), Some(7));
    assert_eq!(parse_u64("18446744073709551615"), Some(18446744073709551615));
}

#[test]
fn rejects_bad_decimal_values() {
    assert_eq!(parse_u64(""), None);
    assert_eq!(parse_u64("12a"), None);
    assert_eq!(parse_u64("+1"), None);
    assert_eq!(parse_u64("-1"), None);
    assert_eq!(parse_u64(" 1"), None);
    // One past the largest 64-bit value.
    assert_eq!(parse_u64("18446744073709551616"), None);
    assert_eq!(parse_u64("99999999999999999999"), None);
}

#[test]
fn percent_encodes_query_parameters() {
    let q = Query::new().param("a b", "c/d");
    assert_eq!(q.to_query_string(), "a%20b=c%2Fd");
}

#[test]
fn keeps_unreserved_characters() {
    let q = Query::new().param("A-z._~09", "ok");
    assert_eq!(q.to_query_string(), "A-z._~09=ok");
}

#[test]
fn joins_parameters_in_order() {
    let q = Query::new().param("one", "1").param("two", "2").param("three", "=&+");
    assert_eq!(q.to_query_string(), "one=1&two=2&three=%3D%26%2B");
}

#[test]
fn empty_query_serializes_empty() {
    let q = Query::new();
    assert_eq!(q.to_query_string(), "");
    assert!(q.is_empty());
}
