use pipe_cli::numeral::{parse_u64_digits, u64_to_dec};

#[test]
fn prints_zero() {
    assert_eq!(u64_to_dec(0), "0");
}

#[test]
fn prints_single_digit() {
    assert_eq!(u64_to_dec(7), "7");
}

#[test]
fn prints_multi_digit() {
    assert_eq!(u64_to_dec(42), "42");
    assert_eq!(u64_to_dec(1005), "1005");
}

#[test]
fn prints_max() {
    assert_eq!(u64_to_dec(u64::MAX), "18446744073709551615");
}

#[test]
fn parses_plain_digits() {
    assert_eq!(parse_u64_digits("77"), Some(77));
    assert_eq!(parse_u64_digits("0"), Some(0));
    assert_eq!(parse_u64_digits("0042"), Some(42));
}

#[test]
fn rejects_empty_and_letters() {
    assert_eq!(parse_u64_digits(""), None);
    assert_eq!(parse_u64_digits("abc"), None);
    assert_eq!(parse_u64_digits("12a"), None);
    assert_eq!(parse_u64_digits("-5"), None);
    assert_eq!(parse_u64_digits("+5"), None);
    assert_eq!(parse_u64_digits(" 5"), None);
}

#[test]
fn parses_max_and_rejects_overflow() {
    assert_eq!(parse_u64_digits("18446744073709551615"), Some(u64::MAX));
    assert_eq!(parse_u64_digits("18446744073709551616"), None);
    assert_eq!(parse_u64_digits("99999999999999999999999"), None);
}

#[test]
fn round_trips() {
    for n in [0u64, 1, 9, 10, 99, 12345, u64::MAX] {
        assert_eq!(parse_u64_digits(&u64_to_dec(n)), Some(n));
    }
}
