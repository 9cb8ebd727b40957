use clip_verse::text::{format_i64, parse_u64};

#[test]
fn decimal_forms() {
    assert_eq!(format_i64(0), "0");
    assert_eq!(format_i64(1700000000123), "1700000000123");
    assert_eq!(format_i64(-42), "-42");
    assert_eq!(format_i64(i64::MIN), "-9223372036854775808");
}

#[test]
fn parse_accepts_plus_and_digits() {
    assert_eq!(parse_u64("250"), Some(250));
    assert_eq!(parse_u64("+250"), Some(250));
    assert_eq!(parse_u64("18446744073709551615"), Some(u64::MAX));
}

#[test]
fn parse_refuses_everything_else() {
    assert_eq!(parse_u64(""), None);
    assert_eq!(parse_u64("+"), None);
    assert_eq!(parse_u64("-1"), None);
    assert_eq!(parse_u64(" 5"), None);
    assert_eq!(parse_u64("5ms"), None);
    assert_eq!(parse_u64("18446744073709551616"), None);
}

#[test]
fn parse_reads_back_decimal_form() {
    for n in [0i64, 7, 100, 500, 123456789, i64::MAX] {
        assert_eq!(parse_u64(&format_i64(n)), Some(n as u64));
    }
    assert_eq!(parse_u64(&u64::MAX.to_string()), Some(u64::MAX));
}

#[test]
fn parse_agrees_with_std() {
    for s in ["0", "00012", "+7", "++7", "99999999999999999999", "12a", "٣"] {
        assert_eq!(parse_u64(s), s.parse::<u64>().ok());
    }
}
