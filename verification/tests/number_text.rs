//! The numeric grammar: integers and decimals recovered from text.

use gpx::numbers::{parse_decimal, parse_i32, parse_u16, parse_u32, parse_u64};
use gpx::Decimal;

#[test]
fn integers_parse() {
    assert_eq!(parse_i32("2020"), Some(2020));
    assert_eq!(parse_i32("+17"), Some(17));
    assert_eq!(parse_i32("-5"), Some(-5));
    assert_eq!(parse_i32("007"), Some(7));
    assert_eq!(parse_u32("1"), Some(1));
    assert_eq!(parse_u64("4"), Some(4));
    assert_eq!(parse_u16("3"), Some(3));
}

#[test]
fn integers_reject_bad_shapes() {
    assert_eq!(parse_i32(""), None);
    assert_eq!(parse_i32("-"), None);
    assert_eq!(parse_i32("12.5"), None);
    assert_eq!(parse_i32("twenty"), None);
    assert_eq!(parse_i32(" 7"), None);
    assert_eq!(parse_i32("1234567890123456789"), None);
    assert_eq!(parse_u32("-1"), None);
    assert_eq!(parse_u16("70000"), None);
    assert_eq!(parse_i32("9999999999"), None);
}

#[test]
fn decimals_parse() {
    assert_eq!(
        parse_decimal("-77.0365"),
        Some(Decimal { neg: true, mantissa: 770365, scale: 4 })
    );
    assert_eq!(
        parse_decimal("4.46"),
        Some(Decimal { neg: false, mantissa: 446, scale: 2 })
    );
    assert_eq!(
        parse_decimal("728."),
        Some(Decimal { neg: false, mantissa: 728, scale: 0 })
    );
    assert_eq!(
        parse_decimal(".5"),
        Some(Decimal { neg: false, mantissa: 5, scale: 1 })
    );
    assert_eq!(
        parse_decimal("+5"),
        Some(Decimal { neg: false, mantissa: 5, scale: 0 })
    );
    assert_eq!(
        parse_decimal("-118.17100617103279"),
        Some(Decimal { neg: true, mantissa: 11817100617103279, scale: 14 })
    );
}

#[test]
fn decimals_reject_bad_shapes() {
    assert_eq!(parse_decimal(""), None);
    assert_eq!(parse_decimal("."), None);
    assert_eq!(parse_decimal("-."), None);
    assert_eq!(parse_decimal("1.2.3"), None);
    assert_eq!(parse_decimal("abc"), None);
    assert_eq!(parse_decimal("1e5"), None);
    assert_eq!(parse_decimal("12345678901234567890"), None);
}
