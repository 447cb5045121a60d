use polymarket::decimal::{fixed_text, nat_to_text, padded_to_text, parse_decimal};

#[test]
fn parse_decimal_reads_plain_numbers() {
    assert_eq!(parse_decimal("0.52"), Some(520_000));
    assert_eq!(parse_decimal("100"), Some(100_000_000));
    assert_eq!(parse_decimal(".5"), Some(500_000));
    assert_eq!(parse_decimal("5."), Some(5_000_000));
    assert_eq!(parse_decimal("+1.25"), Some(1_250_000));
    assert_eq!(parse_decimal("0"), Some(0));
    assert_eq!(parse_decimal("0.0001"), Some(100));
    assert_eq!(parse_decimal("007.5"), Some(7_500_000));
}

#[test]
fn parse_decimal_cuts_digits_past_the_sixth() {
    assert_eq!(parse_decimal("0.1234567"), Some(123_456));
    assert_eq!(parse_decimal("0.9999999"), Some(999_999));
    assert_eq!(parse_decimal("1.000000999"), Some(1_000_000));
}

#[test]
fn parse_decimal_rejects_other_text() {
    assert_eq!(parse_decimal(""), None);
    assert_eq!(parse_decimal("."), None);
    assert_eq!(parse_decimal("+"), None);
    assert_eq!(parse_decimal("+."), None);
    assert_eq!(parse_decimal("-1"), None);
    assert_eq!(parse_decimal("1e3"), None);
    assert_eq!(parse_decimal(" 1"), None);
    assert_eq!(parse_decimal("1 "), None);
    assert_eq!(parse_decimal("1.2.3"), None);
    assert_eq!(parse_decimal("abc"), None);
    assert_eq!(parse_decimal("NaN"), None);
    assert_eq!(parse_decimal("inf"), None);
    assert_eq!(parse_decimal("1,5"), None);
    assert_eq!(parse_decimal("٣"), None);
}

#[test]
fn parse_decimal_stops_at_64_bits() {
    // u64::MAX is 18446744073709551615 micro-units.
    assert_eq!(parse_decimal("18446744073709.551615"), Some(u64::MAX));
    assert_eq!(parse_decimal("18446744073709.551616"), None);
    assert_eq!(parse_decimal("18446744073710"), None);
    assert_eq!(parse_decimal("99999999999999999999999999999999999999999999"), None);
    assert_eq!(parse_decimal("18446744073709.5516159"), Some(u64::MAX));
}

#[test]
fn fixed_text_rounds_half_up() {
    assert_eq!(fixed_text(30_000, 4), "0.0300");
    assert_eq!(fixed_text(970_000, 4), "0.9700");
    assert_eq!(fixed_text(1_234_567, 2), "1.23");
    assert_eq!(fixed_text(1_235_000, 2), "1.24");
    assert_eq!(fixed_text(999_999, 0), "1");
    assert_eq!(fixed_text(499_999, 0), "0");
    assert_eq!(fixed_text(500_000, 0), "1");
    assert_eq!(fixed_text(12_000_000, 6), "12.000000");
    assert_eq!(fixed_text(0, 4), "0.0000");
    assert_eq!(fixed_text(999_950, 4), "1.0000");
    assert_eq!(fixed_text(999_949, 4), "0.9999");
}

#[test]
fn fixed_text_takes_the_largest_amount() {
    assert_eq!(fixed_text(u128::MAX, 6), "340282366920938463463374607431768.211455");
    assert_eq!(fixed_text(u128::MAX, 0), "340282366920938463463374607431768");
}

#[test]
fn nat_to_text_writes_base_ten() {
    assert_eq!(nat_to_text(0), "0");
    assert_eq!(nat_to_text(7), "7");
    assert_eq!(nat_to_text(10), "10");
    assert_eq!(nat_to_text(1234567890), "1234567890");
    assert_eq!(nat_to_text(u128::MAX), "340282366920938463463374607431768211455");
}

#[test]
fn padded_to_text_keeps_leading_zeros() {
    assert_eq!(padded_to_text(5, 3), "005");
    assert_eq!(padded_to_text(1234, 2), "34");
    assert_eq!(padded_to_text(0, 0), "");
    assert_eq!(padded_to_text(0, 4), "0000");
}
