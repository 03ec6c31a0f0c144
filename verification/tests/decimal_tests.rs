use dune_client::decimal::parse_u64;
use dune_client::decimal::u64_to_string;

#[test]
fn renders_decimal_exactly() {
    assert_eq!(u64_to_string(0), "0");
    assert_eq!(u64_to_string(7), "7");
    assert_eq!(u64_to_string(10), "10");
    assert_eq!(u64_to_string(4011227), "4011227");
    assert_eq!(u64_to_string(u64::MAX), "18446744073709551615");
}

#[test]
fn parses_unsigned_integer_literals() {
    assert_eq!(parse_u64("0"), Some(0));
    assert_eq!(parse_u64("7"), Some(7));
    assert_eq!(parse_u64("007"), Some(7));
    assert_eq!(parse_u64("+5"), Some(5));
    assert_eq!(parse_u64("4011227"), Some(4011227));
    assert_eq!(parse_u64("18446744073709551615"), Some(u64::MAX));
}

#[test]
fn rejects_everything_else() {
    assert_eq!(parse_u64(""), None);
    assert_eq!(parse_u64("+"), None);
    assert_eq!(parse_u64("-1"), None);
    assert_eq!(parse_u64("12 "), None);
    assert_eq!(parse_u64(" 12"), None);
    assert_eq!(parse_u64("1.5"), None);
    assert_eq!(parse_u64("abc"), None);
    assert_eq!(parse_u64("01J5ZMD33P6J413G1KQM6QTE4S"), None);
    // one past the largest value
    assert_eq!(parse_u64("18446744073709551616"), None);
}

#[test]
fn parse_agrees_with_rendering() {
    for n in [0u64, 1, 9, 10, 99, 1000, 4011227, u64::MAX] {
        assert_eq!(parse_u64(&u64_to_string(n)), Some(n));
    }
}
