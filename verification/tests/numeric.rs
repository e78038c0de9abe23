use serde_valid::error::number::Number;
use serde_valid::{
    ValidateExclusiveMaximum, ValidateExclusiveMinimum, ValidateMaximum, ValidateMinimum,
    ValidateMultipleOf,
};

#[test]
fn test_validate_numeric_minimum_is_true() {
    assert!(ValidateMinimum::validate_minimum(&10, 9).is_ok());
    assert!(ValidateMinimum::validate_minimum(&10, 10).is_ok());
}

#[test]
fn test_validate_numeric_minimum_is_false() {
    assert!(ValidateMinimum::validate_minimum(&5, 6).is_err());
}

#[test]
fn test_validate_numeric_minimum_specified_type() {
    assert!(ValidateMinimum::validate_minimum(&5u8, 0).is_ok());
    assert!(ValidateMinimum::validate_minimum(&4u16, 0).is_ok());
    assert!(ValidateMinimum::validate_minimum(&6u32, 0).is_ok());
}

#[test]
fn minimum_at_below_and_above_the_bound() {
    assert!(18i32.validate_minimum(18).is_ok());
    assert!(19i32.validate_minimum(18).is_ok());
    let params = 17i32.validate_minimum(18).unwrap_err();
    assert_eq!(params.minimum(), Number::I32(18));
    assert!(i64::MIN.validate_minimum(i64::MIN).is_ok());
    assert!(i64::MIN.validate_minimum(i64::MIN + 1).is_err());
    assert!(u128::MAX.validate_minimum(u128::MAX).is_ok());
    assert!((-1i8).validate_minimum(0).is_err());
}

#[test]
fn maximum_at_below_and_above_the_bound() {
    assert!(18u8.validate_maximum(18).is_ok());
    assert!(17u8.validate_maximum(18).is_ok());
    let params = 19u8.validate_maximum(18).unwrap_err();
    assert_eq!(params.maximum(), Number::U8(18));
    assert!(i128::MAX.validate_maximum(i128::MAX).is_ok());
    assert!(0isize.validate_maximum(-1).is_err());
}

#[test]
fn exclusive_minimum_is_strict() {
    assert!(19i16.validate_exclusive_minimum(18).is_ok());
    let params = 18i16.validate_exclusive_minimum(18).unwrap_err();
    assert_eq!(params.exclusive_minimum(), Number::I16(18));
    assert!(17i16.validate_exclusive_minimum(18).is_err());
    assert!(usize::MAX.validate_exclusive_minimum(usize::MAX).is_err());
}

#[test]
fn exclusive_maximum_is_strict() {
    assert!(17u64.validate_exclusive_maximum(18).is_ok());
    let params = 18u64.validate_exclusive_maximum(18).unwrap_err();
    assert_eq!(params.exclusive_maximum(), Number::U64(18));
    assert!(19u64.validate_exclusive_maximum(18).is_err());
    assert!(i8::MIN.validate_exclusive_maximum(i8::MIN).is_err());
}

#[test]
fn multiple_of_accepts_whole_multiples() {
    assert!(10i32.validate_multiple_of(5).is_ok());
    assert!(0u8.validate_multiple_of(7).is_ok());
    assert!((-9i64).validate_multiple_of(3).is_ok());
    assert!(9i64.validate_multiple_of(-3).is_ok());
    let params = 10i32.validate_multiple_of(3).unwrap_err();
    assert_eq!(params.multiple_of(), Number::I32(3));
    assert!((-7i16).validate_multiple_of(2).is_err());
}

#[test]
fn multiple_of_at_the_edges() {
    assert!(0i32.validate_multiple_of(0).is_ok());
    assert!(4i32.validate_multiple_of(0).is_err());
    assert!(i32::MIN.validate_multiple_of(-1).is_ok());
    assert!(i128::MIN.validate_multiple_of(2).is_ok());
    assert!(i128::MIN.validate_multiple_of(i128::MIN).is_ok());
    assert!(i128::MAX.validate_multiple_of(i128::MIN).is_err());
    assert!(u128::MAX.validate_multiple_of(5).is_ok());
}

#[test]
fn numbers_compare_by_value_across_types() {
    assert!(Number::U8(5).same_value(&Number::I64(5)));
    assert!(!Number::U8(5).same_value(&Number::I64(-5)));
    assert!(Number::I8(-1).below(&Number::U128(0)));
    assert!(Number::U128(u128::MAX).above(&Number::I128(i128::MAX)));
    assert!(Number::I128(i128::MIN).at_most(&Number::I8(i8::MIN)));
    assert!(Number::Usize(3).at_least(&Number::I16(3)));
    assert!(Number::I32(-12).is_multiple_of(&Number::U8(4)));
    assert_eq!(Number::I128(i128::MIN).magnitude(), 1u128 << 127);
    assert!(Number::I64(-3).is_negative());
    assert!(!Number::U64(3).is_negative());
}

#[test]
fn numbers_are_written_in_decimal() {
    assert_eq!(Number::I32(18).to_text(), "18");
    assert_eq!(Number::I8(-128).to_text(), "-128");
    assert_eq!(Number::U8(0).to_text(), "0");
    assert_eq!(Number::I64(-7).to_text(), "-7");
    assert_eq!(Number::U128(u128::MAX).to_text(), "340282366920938463463374607431768211455");
    assert_eq!(Number::I128(i128::MIN).to_text(), "-170141183460469231731687303715884105728");
    assert_eq!(Number::Usize(1000).to_text(), "1000");
}
