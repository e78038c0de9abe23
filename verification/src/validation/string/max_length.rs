use crate::error::MaxLengthErrorParams;
use std::borrow::Cow;
use vstd::prelude::*;
use vstd::string::StrSliceExecFns;

verus! {

/// Length validation of a text against an inclusive upper bound, counted in Unicode scalar values.
pub fn validate_string_max_length(
    value: &str,
    max_length: usize,
) -> (result: Result<(), MaxLengthErrorParams>)
    ensures
        result is Ok <==> value@.len() <= max_length,
        result matches Err(params) ==> params.max_length == max_length,
{
    if value.unicode_len() <= max_length {
        Ok(())
    } else {
        Err(MaxLengthErrorParams::new(max_length))
    }
}

/// Maximum length validation of the string.
///
/// The length of a text is the number of its Unicode scalar values, whatever the number of bytes
/// that hold them.
///
/// See <https://json-schema.org/understanding-json-schema/reference/string.html#length>
pub trait ValidateMaxLength {
    fn validate_max_length(&self, max_length: usize) -> Result<(), MaxLengthErrorParams>;
}

impl ValidateMaxLength for str {
    fn validate_max_length(&self, max_length: usize) -> (result: Result<(), MaxLengthErrorParams>)
        ensures
            result is Ok <==> self@.len() <= max_length,
            result matches Err(params) ==> params.max_length == max_length,
    {
        validate_string_max_length(self, max_length)
    }
}

impl ValidateMaxLength for &str {
    fn validate_max_length(&self, max_length: usize) -> (result: Result<(), MaxLengthErrorParams>)
        ensures
            result is Ok <==> self@.len() <= max_length,
            result matches Err(params) ==> params.max_length == max_length,
    {
        validate_string_max_length(*self, max_length)
    }
}

impl ValidateMaxLength for String {
    fn validate_max_length(&self, max_length: usize) -> (result: Result<(), MaxLengthErrorParams>)
        ensures
            result is Ok <==> self@.len() <= max_length,
            result matches Err(params) ==> params.max_length == max_length,
    {
        validate_string_max_length(self.as_str(), max_length)
    }
}

impl ValidateMaxLength for Cow<'_, str> {
    fn validate_max_length(&self, max_length: usize) -> (result: Result<(), MaxLengthErrorParams>)
        ensures
            result is Ok <==> self@.len() <= max_length,
            result matches Err(params) ==> params.max_length == max_length,
    {
        match self {
            Cow::Borrowed(borrowed) => validate_string_max_length(*borrowed, max_length),
            Cow::Owned(owned) => validate_string_max_length(owned.as_str(), max_length),
        }
    }
}

} // verus!
