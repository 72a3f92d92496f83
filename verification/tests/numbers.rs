use chat_runtime::numeric::{check_nonneg_float, parse_nonneg_int};

#[test]
fn plain_decimals_pass() {
    assert!(check_nonneg_float("0.7"));
    assert!(check_nonneg_float("0"));
    assert!(check_nonneg_float("1."));
    assert!(check_nonneg_float(".5"));
    assert!(check_nonneg_float("+.5"));
    assert!(check_nonneg_float("2e3"));
    assert!(check_nonneg_float("2.5E-3"));
    assert!(check_nonneg_float("+1e+2"));
}

#[test]
fn negative_values_fail() {
    assert!(!check_nonneg_float("-1"));
    assert!(!check_nonneg_float("-0.001"));
    assert!(!check_nonneg_float("-00.1"));
    assert!(!check_nonneg_float("-2e-3"));
    assert!(!check_nonneg_float("-inf"));
    assert!(!check_nonneg_float("-Infinity"));
}

#[test]
fn negative_zero_passes() {
    assert!(check_nonneg_float("-0"));
    assert!(check_nonneg_float("-0.000"));
    assert!(check_nonneg_float("-0.0e5"));
}

#[test]
fn special_values_follow_float_parsing() {
    assert!(check_nonneg_float("inf"));
    assert!(check_nonneg_float("Infinity"));
    assert!(check_nonneg_float("nan"));
    assert!(check_nonneg_float("NaN"));
    assert!(check_nonneg_float("-nan"));
}

#[test]
fn malformed_literals_fail() {
    assert!(!check_nonneg_float("abc"));
    assert!(!check_nonneg_float(""));
    assert!(!check_nonneg_float("."));
    assert!(!check_nonneg_float("1e"));
    assert!(!check_nonneg_float("1e+"));
    assert!(!check_nonneg_float("1.2.3"));
    assert!(!check_nonneg_float("1 "));
    assert!(!check_nonneg_float("0x10"));
    assert!(!check_nonneg_float("++1"));
}

#[test]
fn uint_parsing_accepts_plain_and_signed() {
    assert_eq!(parse_nonneg_int("0"), Some(0));
    assert_eq!(parse_nonneg_int("42"), Some(42));
    assert_eq!(parse_nonneg_int("+42"), Some(42));
    assert_eq!(parse_nonneg_int("007"), Some(7));
}

#[test]
fn uint_parsing_rejects_malformed() {
    assert_eq!(parse_nonneg_int(""), None);
    assert_eq!(parse_nonneg_int("+"), None);
    assert_eq!(parse_nonneg_int("-1"), None);
    assert_eq!(parse_nonneg_int("4.2"), None);
    assert_eq!(parse_nonneg_int("abc"), None);
}

#[test]
fn uint_parsing_handles_the_machine_limit() {
    assert_eq!(parse_nonneg_int("18446744073709551615"), Some(usize::MAX));
    assert_eq!(parse_nonneg_int("18446744073709551616"), None);
    assert_eq!(parse_nonneg_int("99999999999999999999999"), None);
}
