use serde_valid::error::{Literal, Number, ToDefaultMessage};
use serde_valid::{validate_generic_enumerate, ValidateEnumerate};

#[test]
fn generic_enumerate_finds_an_equal_candidate() {
    assert!(validate_generic_enumerate(&2, &[1, 2, 3]));
    assert!(!validate_generic_enumerate(&4, &[1, 2, 3]));
    assert!(!validate_generic_enumerate(&4, &[]));
    assert!(validate_generic_enumerate(&'b', &['a', 'b']));
    assert!(validate_generic_enumerate(&"b", &["a", "b"]));
}

#[test]
fn enumerate_of_numbers() {
    assert!(1i32.validate_enumerate(&[1, 2, 3]).is_ok());
    assert!(3u8.validate_enumerate(&[1, 2, 3]).is_ok());
    let params = 4i64.validate_enumerate(&[1, 2, 3]).unwrap_err();
    assert_eq!(params.enumerate().len(), 3);
    assert!(matches!(params.enumerate()[0], Literal::Number(Number::I64(1))));
    assert!(matches!(params.enumerate()[2], Literal::Number(Number::I64(3))));
    assert_eq!(params.to_default_message(), "The value must be in [1, 2, 3].");
}

#[test]
fn enumerate_of_booleans_and_characters() {
    assert!(true.validate_enumerate(&[true]).is_ok());
    let params = false.validate_enumerate(&[true]).unwrap_err();
    assert_eq!(params.to_default_message(), "The value must be in [true].");
    assert!('a'.validate_enumerate(&['a', 'b']).is_ok());
    let params = 'c'.validate_enumerate(&['a', 'b']).unwrap_err();
    assert_eq!(params.to_default_message(), "The value must be in ['a', 'b'].");
}

#[test]
fn enumerate_of_texts() {
    assert!("b".validate_enumerate(&["a", "b"]).is_ok());
    assert!((&"a").validate_enumerate(&["a", "b"]).is_ok());
    assert!(String::from("b").validate_enumerate(&["a", "b"]).is_ok());
    let params = "c".validate_enumerate(&["a", "b"]).unwrap_err();
    assert_eq!(params.to_default_message(), "The value must be in [\"a\", \"b\"].");
    let params = String::from("c").validate_enumerate(&[]).unwrap_err();
    assert_eq!(params.to_default_message(), "The value must be in [].");
}
