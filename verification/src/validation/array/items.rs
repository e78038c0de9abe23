use crate::error::{MaxItemsErrorParams, MinItemsErrorParams};
use vstd::prelude::*;

verus! {

/// Whether a length lies inside the optional inclusive bounds.
pub open spec fn within_items(
    len: nat,
    min_items: Option<usize>,
    max_items: Option<usize>,
) -> bool {
    &&& (min_items matches Some(min) ==> min <= len)
    &&& (max_items matches Some(max) ==> len <= max)
}

/// Length validation.
///
/// See <https://json-schema.org/understanding-json-schema/reference/array.html#length>
pub fn validate_array_items<T>(
    value: &[T],
    min_items: Option<usize>,
    max_items: Option<usize>,
) -> (ok: bool)
    ensures
        ok == within_items(value@.len(), min_items, max_items),
{
    let len: usize = value.len();
    if let Some(max) = max_items {
        if max < len {
            return false;
        }
    }
    if let Some(min) = min_items {
        if len < min {
            return false;
        };
    }
    true
}

/// Length validation of a sequence against an inclusive lower bound.
pub fn validate_array_min_items<T>(
    value: &[T],
    min_items: usize,
) -> (result: Result<(), MinItemsErrorParams>)
    ensures
        result is Ok <==> value@.len() >= min_items,
        result matches Err(params) ==> params.min_items == min_items,
{
    if value.len() >= min_items {
        Ok(())
    } else {
        Err(MinItemsErrorParams::new(min_items))
    }
}

/// Minimum size validation of the array items.
///
/// See <https://json-schema.org/understanding-json-schema/reference/array.html#length>
pub trait ValidateMinItems {
    fn validate_min_items(&self, min_items: usize) -> Result<(), MinItemsErrorParams>;
}

impl<T> ValidateMinItems for Vec<T> {
    fn validate_min_items(&self, min_items: usize) -> (result: Result<(), MinItemsErrorParams>)
        ensures
            result is Ok <==> self@.len() >= min_items,
            result matches Err(params) ==> params.min_items == min_items,
    {
        validate_array_min_items(self.as_slice(), min_items)
    }
}

impl<T> ValidateMinItems for [T] {
    fn validate_min_items(&self, min_items: usize) -> (result: Result<(), MinItemsErrorParams>)
        ensures
            result is Ok <==> self@.len() >= min_items,
            result matches Err(params) ==> params.min_items == min_items,
    {
        validate_array_min_items(self, min_items)
    }
}

impl<T, const N: usize> ValidateMinItems for [T; N] {
    fn validate_min_items(&self, min_items: usize) -> (result: Result<(), MinItemsErrorParams>)
        ensures
            result is Ok <==> N >= min_items,
            result matches Err(params) ==> params.min_items == min_items,
    {
        if N >= min_items {
            Ok(())
        } else {
            Err(MinItemsErrorParams::new(min_items))
        }
    }
}

/// Length validation of a sequence against an inclusive upper bound.
pub fn validate_array_max_items<T>(
    value: &[T],
    max_items: usize,
) -> (result: Result<(), MaxItemsErrorParams>)
    ensures
        result is Ok <==> value@.len() <= max_items,
        result matches Err(params) ==> params.max_items == max_items,
{
    if value.len() <= max_items {
        Ok(())
    } else {
        Err(MaxItemsErrorParams::new(max_items))
    }
}

/// Maximum size validation of the array items.
///
/// See <https://json-schema.org/understanding-json-schema/reference/array.html#length>
pub trait ValidateMaxItems {
    fn validate_max_items(&self, max_items: usize) -> Result<(), MaxItemsErrorParams>;
}

impl<T> ValidateMaxItems for Vec<T> {
    fn validate_max_items(&self, max_items: usize) -> (result: Result<(), MaxItemsErrorParams>)
        ensures
            result is Ok <==> self@.len() <= max_items,
            result matches Err(params) ==> params.max_items == max_items,
    {
        validate_array_max_items(self.as_slice(), max_items)
    }
}

impl<T> ValidateMaxItems for [T] {
    fn validate_max_items(&self, max_items: usize) -> (result: Result<(), MaxItemsErrorParams>)
        ensures
            result is Ok <==> self@.len() <= max_items,
            result matches Err(params) ==> params.max_items == max_items,
    {
        validate_array_max_items(self, max_items)
    }
}

impl<T, const N: usize> ValidateMaxItems for [T; N] {
    fn validate_max_items(&self, max_items: usize) -> (result: Result<(), MaxItemsErrorParams>)
        ensures
            result is Ok <==> N <= max_items,
            result matches Err(params) ==> params.max_items == max_items,
    {
        if N <= max_items {
            Ok(())
        } else {
            Err(MaxItemsErrorParams::new(max_items))
        }
    }
}

} // verus!
