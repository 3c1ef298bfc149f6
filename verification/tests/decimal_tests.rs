use content_subscription::decimal::parse_u128;
use content_subscription::decimal::to_decimal;

#[test]
fn parse_simple_values() {
    assert_eq!(parse_u128("0"), Some(0));
    assert_eq!(parse_u128("7"), Some(7));
    assert_eq!(parse_u128("123"), Some(123));
    assert_eq!(parse_u128("0042"), Some(42));
    assert_eq!(parse_u128("10000"), Some(10000));
}

#[test]
fn parse_limits() {
    assert_eq!(
        parse_u128("340282366920938463463374607431768211455"),
        Some(u128::MAX)
    );
    // One past the largest value must be rejected.
    assert_eq!(parse_u128("340282366920938463463374607431768211456"), None);
    assert_eq!(parse_u128("999999999999999999999999999999999999999999"), None);
}

#[test]
fn parse_rejects_malformed() {
    assert_eq!(parse_u128(""), None);
    assert_eq!(parse_u128(" 1"), None);
    assert_eq!(parse_u128("+1"), None);
    assert_eq!(parse_u128("-1"), None);
    assert_eq!(parse_u128("12a"), None);
    assert_eq!(parse_u128("1.5"), None);
}

#[test]
fn render_decimal() {
    assert_eq!(to_decimal(0), "0");
    assert_eq!(to_decimal(9), "9");
    assert_eq!(to_decimal(10), "10");
    assert_eq!(to_decimal(10025), "10025");
    assert_eq!(
        to_decimal(u128::MAX),
        "340282366920938463463374607431768211455"
    );
}

#[test]
fn parse_round_trip() {
    for v in [0u128, 1, 9, 10, 99, 100, 12345678901234567890] {
        assert_eq!(parse_u128(&to_decimal(v)), Some(v));
    }
}
