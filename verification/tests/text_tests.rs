use cloud_manage::operations::pad_right;
use cloud_manage::text::{
    decimal_string, is_blank_str, parse_i64, parse_u32, signed_decimal_string, str_contains,
    strip_prefix_str, trim_str, utf8_len_of,
};

#[test]
fn trimming_and_blankness() {
    assert_eq!(trim_str("  a b \t\n"), "a b");
    assert_eq!(trim_str("\u{3000}x\u{a0}"), "x");
    assert_eq!(trim_str("   "), "");
    assert!(is_blank_str(""));
    assert!(is_blank_str(" \t\r\n"));
    assert!(!is_blank_str(" x "));
}

#[test]
fn numbers() {
    assert_eq!(decimal_string(0), "0");
    assert_eq!(decimal_string(18446744073709551615), "18446744073709551615");
    assert_eq!(signed_decimal_string(-47), "-47");
    assert_eq!(signed_decimal_string(i64::MIN), "-9223372036854775808");
    assert_eq!(signed_decimal_string(50), "50");
    assert_eq!(parse_u32("0042"), Some(42));
    assert_eq!(parse_u32("+7"), Some(7));
    assert_eq!(parse_u32(""), None);
    assert_eq!(parse_u32("+"), None);
    assert_eq!(parse_u32("1 2"), None);
    assert_eq!(parse_i64("-9223372036854775808"), Some(i64::MIN));
    assert_eq!(parse_i64("9223372036854775808"), None);
    assert_eq!(parse_i64("-"), None);
}

#[test]
fn decimal_round_trip() {
    for n in [0u32, 1, 9, 10, 300, 65535, u32::MAX] {
        assert_eq!(parse_u32(&decimal_string(n as u64)), Some(n));
    }
}

#[test]
fn searching_and_case() {
    assert!(str_contains("connection reset by peer", "reset by peer"));
    assert!(!str_contains("abc", "abcd"));
    assert!(str_contains("abc", ""));
    assert_eq!(strip_prefix_str("Bearer tok", "Bearer "), Some("tok".to_string()));
    assert_eq!(strip_prefix_str("Basic tok", "Bearer "), None);
    assert_eq!(utf8_len_of("é€x"), 6);
}

#[test]
fn padding() {
    assert_eq!(pad_right("ab", 5), "ab   ");
    assert_eq!(pad_right("abcdef", 3), "abcdef");
    assert_eq!(pad_right("é", 3), format!("{:<3}", "é"));
}
