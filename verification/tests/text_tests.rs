use zeroclaw::text::parse_u64;
use zeroclaw::text::str_contains;
use zeroclaw::text::str_ends_with;
use zeroclaw::text::str_eq;
use zeroclaw::text::str_starts_with;
use zeroclaw::text::u64_to_string;

#[test]
fn parse_u64_reads_decimal_strings() {
    assert_eq!(parse_u64("0"), Some(0));
    assert_eq!(parse_u64("123"), Some(123));
    assert_eq!(parse_u64("1699999999"), Some(1_699_999_999));
    assert_eq!(parse_u64("+5"), Some(5));
}

#[test]
fn parse_u64_rejects_what_std_rejects() {
    assert_eq!(parse_u64(""), None);
    assert_eq!(parse_u64("+"), None);
    assert_eq!(parse_u64("12a"), None);
    assert_eq!(parse_u64("-3"), None);
    assert_eq!(parse_u64(" 7"), None);
    assert_eq!(parse_u64("1.5"), None);
}

#[test]
fn parse_u64_handles_the_overflow_boundary() {
    assert_eq!(parse_u64("18446744073709551615"), Some(u64::MAX));
    assert_eq!(parse_u64("18446744073709551616"), None);
    assert_eq!(parse_u64("99999999999999999999999"), None);
}

#[test]
fn parse_u64_agrees_with_std() {
    for s in ["0", "42", "+42", "007", "", "+", "x", "18446744073709551615",
        "18446744073709551616"] {
        assert_eq!(parse_u64(s), s.parse::<u64>().ok(), "mismatch on {s:?}");
    }
}

#[test]
fn u64_to_string_writes_decimal() {
    assert_eq!(u64_to_string(0), "0");
    assert_eq!(u64_to_string(7), "7");
    assert_eq!(u64_to_string(1234), "1234");
    assert_eq!(u64_to_string(u64::MAX), "18446744073709551615");
}

#[test]
fn string_predicates_match_std() {
    assert!(str_eq("abc", "abc"));
    assert!(!str_eq("abc", "abd"));
    assert!(!str_eq("abc", "ab"));
    assert!(str_starts_with("abcdef", "abc"));
    assert!(!str_starts_with("ab", "abc"));
    assert!(str_ends_with("user@example.com", "@example.com"));
    assert!(!str_ends_with("user@example.org", "@example.com"));
    assert!(str_contains("a line with com.zeroclaw.daemon inside", "com.zeroclaw.daemon"));
    assert!(!str_contains("nothing here", "com.zeroclaw.daemon"));
    assert!(str_contains("anything", ""));
}
