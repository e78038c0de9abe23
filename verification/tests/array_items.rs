use serde_valid::validation::{ValidateMaxItems, ValidateMinItems, ValidateUniqueItems};
use serde_valid::{
    validate_array_items, validate_array_max_items, validate_array_min_items,
    validate_array_unique_items,
};

#[test]
fn test_validate_array_vec_type() {
    assert!(validate_array_items(&vec!['a', 'b', 'c'], Some(3), Some(3)));
}

#[test]
fn test_validate_array_items_array_type() {
    assert!(validate_array_items(&['a', 'b', 'c'], Some(3), Some(3)));
}

#[test]
fn test_validate_array_items_min_is_true() {
    assert!(validate_array_items(&[1, 2, 3], Some(3), None));
}

#[test]
fn test_validate_array_items_min_is_false() {
    assert!(!validate_array_items(&[1, 2, 3], Some(4), None));
}

#[test]
fn test_validate_array_items_max_is_true() {
    assert!(validate_array_items(&[1, 2, 3], None, Some(3)));
}

#[test]
fn test_validate_array_items_max_is_false() {
    assert!(!validate_array_items(&[1, 2, 3], None, Some(2)));
}

#[test]
fn array_items_without_bounds_accepts_anything() {
    let empty: [u8; 0] = [];
    assert!(validate_array_items(&empty, None, None));
    assert!(validate_array_items(&[1, 2, 3], None, None));
}

#[test]
fn array_items_both_bounds_are_inclusive() {
    assert!(validate_array_items(&[1, 2], Some(2), Some(2)));
    assert!(!validate_array_items(&[1, 2], Some(3), Some(5)));
    assert!(!validate_array_items(&[1, 2], Some(0), Some(1)));
}

#[test]
fn min_items_is_inclusive() {
    assert!(validate_array_min_items(&[1, 2, 3], 3).is_ok());
    assert!(vec![1, 2, 3].validate_min_items(2).is_ok());
    let params = validate_array_min_items(&[1, 2, 3], 4).unwrap_err();
    assert_eq!(params.min_items(), 4);
    assert_eq!([1, 2, 3].validate_min_items(4).unwrap_err().min_items(), 4);
}

#[test]
fn max_items_is_inclusive() {
    assert!(validate_array_max_items(&[1, 2, 3], 3).is_ok());
    assert!(vec![1, 2, 3].validate_max_items(4).is_ok());
    let params = validate_array_max_items(&[1, 2, 3], 2).unwrap_err();
    assert_eq!(params.max_items(), 2);
    assert_eq!([1, 2, 3].validate_max_items(0).unwrap_err().max_items(), 0);
}

#[test]
fn unique_items_accepts_distinct_values() {
    assert!(validate_array_unique_items(&[1, 2, 3]).is_ok());
    let empty: [u8; 0] = [];
    assert!(validate_array_unique_items(&empty).is_ok());
    assert!(vec!['a'].validate_unique_items().is_ok());
}

#[test]
fn unique_items_refuses_a_repeated_value() {
    assert!(validate_array_unique_items(&[1, 2, 1]).is_err());
    assert!(vec![true, true].validate_unique_items().is_err());
    assert!(validate_array_unique_items(&[3, 4, 5, 5]).is_err());
}
