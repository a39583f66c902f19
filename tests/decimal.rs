use pockety::decimal::{i64_text, parse_i64, parse_u32};

#[test]
fn parse_u32_reads_plain_digits() {
    assert_eq!(parse_u32("158"), Some(158));
    assert_eq!(parse_u32("0"), Some(0));
    assert_eq!(parse_u32("007"), Some(7));
}

#[test]
fn parse_u32_takes_a_plus_sign() {
    assert_eq!(parse_u32("+42"), Some(42));
}

#[test]
fn parse_u32_refuses_what_std_refuses() {
    assert_eq!(parse_u32(""), None);
    assert_eq!(parse_u32("+"), None);
    assert_eq!(parse_u32("-1"), None);
    assert_eq!(parse_u32("-0"), None);
    assert_eq!(parse_u32("12a"), None);
    assert_eq!(parse_u32(" 12"), None);
    assert_eq!(parse_u32("1.5"), None);
}

#[test]
fn parse_u32_bounds() {
    assert_eq!(parse_u32("4294967295"), Some(u32::MAX));
    assert_eq!(parse_u32("4294967296"), None);
    assert_eq!(parse_u32("99999999999999999999999"), None);
}

#[test]
fn parse_u32_agrees_with_std() {
    for s in ["1", "+1", "-1", "", "+", "4294967295", "4294967296", "00", "1x", "\u{663}"] {
        assert_eq!(parse_u32(s), s.parse::<u32>().ok(), "{s}");
    }
}

#[test]
fn parse_i64_bounds_and_signs() {
    assert_eq!(parse_i64("-9223372036854775808"), Some(i64::MIN));
    assert_eq!(parse_i64("9223372036854775807"), Some(i64::MAX));
    assert_eq!(parse_i64("9223372036854775808"), None);
    assert_eq!(parse_i64("-9223372036854775809"), None);
    assert_eq!(parse_i64("-0"), Some(0));
    assert_eq!(parse_i64("+15"), Some(15));
    assert_eq!(parse_i64("-"), None);
    assert_eq!(parse_i64("--1"), None);
}

#[test]
fn parse_i64_agrees_with_std() {
    for s in ["-1", "+-1", "1431648000", "-9223372036854775808", "", "-", "12 "] {
        assert_eq!(parse_i64(s), s.parse::<i64>().ok(), "{s}");
    }
}

#[test]
fn i64_text_writes_decimal() {
    assert_eq!(i64_text(0), "0");
    assert_eq!(i64_text(1431648000), "1431648000");
    assert_eq!(i64_text(-45), "-45");
    assert_eq!(i64_text(i64::MIN), "-9223372036854775808");
    assert_eq!(i64_text(i64::MAX), "9223372036854775807");
}

#[test]
fn i64_text_reads_back() {
    for n in [0, 1, -1, 9, 10, -10, 1_700_000_000, i64::MIN, i64::MAX] {
        assert_eq!(parse_i64(&i64_text(n)), Some(n));
        assert_eq!(i64_text(n), n.to_string());
    }
}
