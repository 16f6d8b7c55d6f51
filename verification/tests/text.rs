use agent::text::{decimal_string, parse_decimal_usize};

#[test]
fn decimal_of_small_and_large_numbers() {
    assert_eq!(decimal_string(0), "0");
    assert_eq!(decimal_string(7), "7");
    assert_eq!(decimal_string(10), "10");
    assert_eq!(decimal_string(255), "255");
    assert_eq!(decimal_string(u64::MAX), "18446744073709551615");
}

#[test]
fn parse_accepts_plain_and_plus_prefixed_digits() {
    assert_eq!(parse_decimal_usize("100"), Some(100));
    assert_eq!(parse_decimal_usize("+7"), Some(7));
    assert_eq!(parse_decimal_usize("007"), Some(7));
    assert_eq!(parse_decimal_usize("0"), Some(0));
}

#[test]
fn parse_refuses_everything_else() {
    for s in ["", "+", "-", "-1", " 1", "1 ", "1a", "++1", "0x10", "\u{0661}"] {
        assert_eq!(parse_decimal_usize(s), None, "{s:?}");
    }
}

#[test]
fn parse_refuses_overflow() {
    let max = usize::MAX.to_string();
    assert_eq!(parse_decimal_usize(&max), Some(usize::MAX));
    let over = format!("{}0", max);
    assert_eq!(parse_decimal_usize(&over), None);
}

#[test]
fn parse_agrees_with_std() {
    for s in ["", "+", "-0", "42", "+42", "4 2", "999999999999999999999", "18446744073709551615", "00", "+0"] {
        assert_eq!(parse_decimal_usize(s), s.parse::<usize>().ok(), "{s:?}");
    }
}

#[test]
fn decimal_reads_back() {
    for n in [0u64, 1, 9, 10, 99, 100, 65535, 4294967296] {
        assert_eq!(parse_decimal_usize(&decimal_string(n)), Some(n as usize));
    }
}
