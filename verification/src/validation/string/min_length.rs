use crate::error::MinLengthErrorParams;
use std::borrow::Cow;
use vstd::prelude::*;
use vstd::string::StrSliceExecFns;

verus! {

/// Length validation of a text against an inclusive lower bound, counted in Unicode scalar values.
pub fn validate_string_min_length(
    value: &str,
    min_length: usize,
) -> (result: Result<(), MinLengthErrorParams>)
    ensures
        result is Ok <==> value@.len() >= min_length,
        result matches Err(params) ==> params.min_length == min_length,
{
    if value.unicode_len() >= min_length {
        Ok(())
    } else {
        Err(MinLengthErrorParams::new(min_length))
    }
}

/// Minimum length validation of the string.
///
/// The length of a text is the number of its Unicode scalar values, whatever the number of bytes
/// that hold them.
///
/// See <https://json-schema.org/understanding-json-schema/reference/string.html#length>
pub trait ValidateMinLength {
    fn validate_min_length(&self, min_length: usize) -> Result<(), MinLengthErrorParams>;
}

impl ValidateMinLength for str {
    fn validate_min_length(&self, min_length: usize) -> (result: Result<(), MinLengthErrorParams>)
        ensures
            result is Ok <==> self@.len() >= min_length,
            result matches Err(params) ==> params.min_length == min_length,
    {
        validate_string_min_length(self, min_length)
    }
}

impl ValidateMinLength for &str {
    fn validate_min_length(&self, min_length: usize) -> (result: Result<(), MinLengthErrorParams>)
        ensures
            result is Ok <==> self@.len() >= min_length,
            result matches Err(params) ==> params.min_length == min_length,
    {
        validate_string_min_length(*self, min_length)
    }
}

impl ValidateMinLength for String {
    fn validate_min_length(&self, min_length: usize) -> (result: Result<(), MinLengthErrorParams>)
        ensures
            result is Ok <==> self@.len() >= min_length,
            result matches Err(params) ==> params.min_length == min_length,
    {
        validate_string_min_length(self.as_str(), min_length)
    }
}

impl ValidateMinLength for Cow<'_, str> {
    fn validate_min_length(&self, min_length: usize) -> (result: Result<(), MinLengthErrorParams>)
        ensures
            result is Ok <==> self@.len() >= min_length,
            result matches Err(params) ==> params.min_length == min_length,
    {
        match self {
            Cow::Borrowed(borrowed) => validate_string_min_length(*borrowed, min_length),
            Cow::Owned(owned) => validate_string_min_length(owned.as_str(), min_length),
        }
    }
}

} // verus!
