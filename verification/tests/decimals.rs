use convective_ml::decimal::{
    decimal_to_fixed, fixed_from_decimal_parts, power_of_ten, truncate_to_decimal,
};
use convective_ml::numeric::Fixed;
use rust_decimal::Decimal;

#[test]
fn decimal_with_small_scale_is_widened_exactly() {
    assert_eq!(decimal_to_fixed(Decimal::new(12345, 2)), Some(Fixed::from_raw(12_345_000_000)));
    assert_eq!(decimal_to_fixed(Decimal::new(-5, 0)), Some(Fixed::from_raw(-500_000_000)));
    assert_eq!(decimal_to_fixed(Decimal::new(0, 5)), Some(Fixed::from_raw(0)));
    assert_eq!(decimal_to_fixed(Decimal::new(12345678, 8)), Some(Fixed::from_raw(12_345_678)));
}

#[test]
fn decimal_with_large_scale_is_cut_off_toward_zero() {
    // 0.123456789 keeps eight decimals.
    assert_eq!(decimal_to_fixed(Decimal::new(123_456_789, 9)), Some(Fixed::from_raw(12_345_678)));
    assert_eq!(decimal_to_fixed(Decimal::new(-123_456_789, 9)), Some(Fixed::from_raw(-12_345_678)));
    assert_eq!(decimal_to_fixed(Decimal::new(1, 28)), Some(Fixed::from_raw(0)));
    assert_eq!(decimal_to_fixed(Decimal::new(-999, 11)), Some(Fixed::from_raw(0)));
}

#[test]
fn decimal_extremes_fit() {
    let max = decimal_to_fixed(Decimal::MAX).unwrap();
    assert_eq!(max.raw(), 79_228_162_514_264_337_593_543_950_335i128 * 100_000_000);
    let min = decimal_to_fixed(Decimal::MIN).unwrap();
    assert_eq!(min.raw(), -79_228_162_514_264_337_593_543_950_335i128 * 100_000_000);
}

#[test]
fn parts_are_rescaled_to_eight_decimals() {
    assert_eq!(fixed_from_decimal_parts(15, 1), Some(Fixed::from_raw(150_000_000)));
    assert_eq!(fixed_from_decimal_parts(-15, 9), Some(Fixed::from_raw(-1)));
    assert_eq!(fixed_from_decimal_parts(7, 8), Some(Fixed::from_raw(7)));
    assert_eq!(fixed_from_decimal_parts(i128::MAX, 0), None);
    assert_eq!(fixed_from_decimal_parts(i128::MIN, 7), None);
    assert_eq!(fixed_from_decimal_parts(i128::MAX, 8), Some(Fixed::from_raw(i128::MAX)));
    assert_eq!(fixed_from_decimal_parts(i128::MAX, 46), Some(Fixed::from_raw(1)));
    assert_eq!(fixed_from_decimal_parts(i128::MAX, 47), Some(Fixed::from_raw(0)));
    assert_eq!(fixed_from_decimal_parts(i128::MIN, u32::MAX), Some(Fixed::from_raw(0)));
}

#[test]
fn powers_of_ten() {
    assert_eq!(power_of_ten(0), 1);
    assert_eq!(power_of_ten(8), 100_000_000);
    assert_eq!(power_of_ten(38), 100_000_000_000_000_000_000_000_000_000_000_000_000);
}

#[test]
fn truncation_drops_the_trailing_decimals() {
    let x = Fixed::from_raw(12_345_678_987);
    assert_eq!(truncate_to_decimal(x, 8), x);
    assert_eq!(truncate_to_decimal(x, 20), x);
    assert_eq!(truncate_to_decimal(x, 6), Fixed::from_raw(12_345_678_900));
    assert_eq!(truncate_to_decimal(x, 2), Fixed::from_raw(12_345_000_000));
    assert_eq!(truncate_to_decimal(x, 0), Fixed::from_raw(12_300_000_000));
    let y = Fixed::from_raw(-12_345_678_987);
    assert_eq!(truncate_to_decimal(y, 2), Fixed::from_raw(-12_345_000_000));
    assert_eq!(truncate_to_decimal(y, 0), Fixed::from_raw(-12_300_000_000));
    assert_eq!(truncate_to_decimal(Fixed::from_raw(-99_999_999), 0), Fixed::from_raw(0));
}
