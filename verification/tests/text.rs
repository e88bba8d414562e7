use ddnsd::text::{owned, starts_with, str_eq, u64_to_decimal};

#[test]
fn decimal_of_zero_and_ports() {
    assert_eq!(u64_to_decimal(0), "0");
    assert_eq!(u64_to_decimal(7), "7");
    assert_eq!(u64_to_decimal(80), "80");
    assert_eq!(u64_to_decimal(443), "443");
    assert_eq!(u64_to_decimal(65535), "65535");
    assert_eq!(u64_to_decimal(u64::MAX), "18446744073709551615");
}

#[test]
fn string_comparisons() {
    assert!(str_eq("https", "https"));
    assert!(!str_eq("https", "http"));
    assert!(!str_eq("abc", "abd"));
    assert!(starts_with("911 server error", "911"));
    assert!(!starts_with("91", "911"));
    assert!(!starts_with("good 1.2.3.4", "911"));
    assert!(starts_with("anything", ""));
    assert_eq!(owned("abc"), "abc");
}
