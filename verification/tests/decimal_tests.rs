use node_stream::decimal::u128_to_decimal;
use node_stream::decimal::u64_to_decimal;

#[test]
fn renders_zero() {
    assert_eq!(u128_to_decimal(0), "0");
    assert_eq!(u64_to_decimal(0), "0");
}

#[test]
fn renders_single_digit() {
    assert_eq!(u128_to_decimal(7), "7");
}

#[test]
fn renders_round_number() {
    assert_eq!(u64_to_decimal(1000), "1000");
}

#[test]
fn renders_large_values() {
    assert_eq!(u128_to_decimal(1234567890), "1234567890");
    assert_eq!(u64_to_decimal(u64::MAX), "18446744073709551615");
    assert_eq!(
        u128_to_decimal(u128::MAX),
        "340282366920938463463374607431768211455"
    );
}
