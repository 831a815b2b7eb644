use plurk::utils::{base36_encode, i64_text, limit_str, parse_i64, parse_u32, parse_u64, u64_text};

#[test]
fn base36_small_values() {
    assert_eq!(base36_encode(0), "0");
    assert_eq!(base36_encode(35), "z");
    assert_eq!(base36_encode(36), "10");
    assert_eq!(base36_encode(1234567890), "kf12oi");
}

#[test]
fn base36_largest_value() {
    assert_eq!(base36_encode(u64::MAX), "3w5e11264sgsf");
}

#[test]
fn decimal_text_of_integers() {
    assert_eq!(u64_text(0), "0");
    assert_eq!(u64_text(u64::MAX), "18446744073709551615");
    assert_eq!(i64_text(-42), "-42");
    assert_eq!(i64_text(i64::MIN), "-9223372036854775808");
    assert_eq!(i64_text(i64::MAX), "9223372036854775807");
}

#[test]
fn decimal_parsing_bounds() {
    assert_eq!(parse_u64("18446744073709551615"), Some(u64::MAX));
    assert_eq!(parse_u64("18446744073709551616"), None);
    assert_eq!(parse_u64("-1"), None);
    assert_eq!(parse_u64("+5"), Some(5));
    assert_eq!(parse_i64("-9223372036854775808"), Some(i64::MIN));
    assert_eq!(parse_i64("9223372036854775808"), None);
    assert_eq!(parse_u32("4294967295"), Some(u32::MAX));
    assert_eq!(parse_u32("4294967296"), None);
    assert_eq!(parse_u64("123456789012345678901234567890"), None);
}

#[test]
fn decimal_parsing_rejects_non_numerals() {
    assert_eq!(parse_u64(""), None);
    assert_eq!(parse_i64("-"), None);
    assert_eq!(parse_u64("1a"), None);
    assert_eq!(parse_u64("1.0"), None);
    assert_eq!(parse_i64(" 1"), None);
}

#[test]
fn limit_str_cuts_first_line() {
    assert_eq!(limit_str("hello\nworld", 3), "hel ...<read more> ");
    assert_eq!(limit_str("hello\nworld", 10), "hello ...<read more> ");
}

#[test]
fn limit_str_keeps_short_text() {
    assert_eq!(limit_str("abc", 10), "abc");
    assert_eq!(limit_str("abc", 3), "abc");
    assert_eq!(limit_str("", 3), "");
}

#[test]
fn limit_str_counts_characters() {
    assert_eq!(limit_str("噗浪好玩", 2), "噗浪 ...<read more> ");
    assert_eq!(limit_str("abc", 0), " ...<read more> ");
}
