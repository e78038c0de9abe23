use crate::error::FormatErrorParams;
use std::borrow::Cow;
use std::path::{Path, PathBuf};
use vstd::prelude::*;

verus! {

/// `std::path::Path`, a path of the file system. Nothing is said of what it holds.
#[verifier::external_type_specification]
#[verifier::external_body]
pub struct ExPath(Path);

/// `std::path::PathBuf`, an owned path of the file system. Nothing is said of what it holds.
#[verifier::external_type_specification]
#[verifier::external_body]
pub struct ExPathBuf(PathBuf);

/// `PathBuf::as_path` of the standard library: the path that the buffer holds, borrowed. Nothing
/// is said of the result; contracts name it as what this function gives for the buffer.
pub assume_specification[ PathBuf::as_path ](path: &PathBuf) -> (borrowed: &Path)
;

/// What a format check reports for an answer of the format predicate: success as it is, a
/// refusal with the predicate's text as the name of the format.
pub open spec fn format_outcome(
    answer: Result<(), String>,
    result: Result<(), FormatErrorParams>,
) -> bool {
    match answer {
        Ok(_) => result is Ok,
        Err(format) => result matches Err(params) && params.format == format,
    }
}

/// Turns the answer of a format predicate into the result of the check.
pub fn format_result(answer: Result<(), String>) -> (result: Result<(), FormatErrorParams>)
    ensures
        format_outcome(answer, result),
{
    match answer {
        Ok(_) => Ok(()),
        Err(format) => Err(FormatErrorParams { format }),
    }
}

/// Format validation of the string.
///
/// See [JsonSchema String Format](https://json-schema.org/understanding-json-schema/reference/string.html#format)
///
/// The predicate is called exactly once, on the value as `&T`; the result is what
/// [`format_result`] makes of its answer.
pub trait ValidateFormat<T: ?Sized> {
    fn validate_format<F: FnOnce(&T) -> Result<(), String>>(
        &self,
        validate_fn: F,
    ) -> (result: Result<(), FormatErrorParams>)
        requires
            forall|value: &T| call_requires(validate_fn, (value,)),
        ensures
            exists|value: &T, answer: Result<(), String>|
                call_ensures(validate_fn, (value,), answer) && format_outcome(answer, result),
    ;
}

impl ValidateFormat<str> for str {
    fn validate_format<F: FnOnce(&str) -> Result<(), String>>(
        &self,
        validate_fn: F,
    ) -> (result: Result<(), FormatErrorParams>)
        ensures
            exists|answer: Result<(), String>|
                call_ensures(validate_fn, (self,), answer) && format_outcome(answer, result),
    {
        format_result(validate_fn(self))
    }
}

impl ValidateFormat<str> for &str {
    fn validate_format<F: FnOnce(&str) -> Result<(), String>>(
        &self,
        validate_fn: F,
    ) -> (result: Result<(), FormatErrorParams>)
        ensures
            exists|answer: Result<(), String>|
                call_ensures(validate_fn, (*self,), answer) && format_outcome(answer, result),
    {
        format_result(validate_fn(*self))
    }
}

impl ValidateFormat<str> for String {
    fn validate_format<F: FnOnce(&str) -> Result<(), String>>(
        &self,
        validate_fn: F,
    ) -> (result: Result<(), FormatErrorParams>)
        ensures
            exists|value: &str, answer: Result<(), String>|
                value@ == self@ && call_ensures(validate_fn, (value,), answer) && format_outcome(
                    answer,
                    result,
                ),
    {
        format_result(validate_fn(self.as_str()))
    }
}

impl ValidateFormat<str> for Cow<'_, str> {
    fn validate_format<F: FnOnce(&str) -> Result<(), String>>(
        &self,
        validate_fn: F,
    ) -> (result: Result<(), FormatErrorParams>)
        ensures
            exists|value: &str, answer: Result<(), String>|
                value@ == self@ && call_ensures(validate_fn, (value,), answer) && format_outcome(
                    answer,
                    result,
                ),
    {
        match self {
            Cow::Borrowed(borrowed) => format_result(validate_fn(*borrowed)),
            Cow::Owned(owned) => format_result(validate_fn(owned.as_str())),
        }
    }
}

impl ValidateFormat<Path> for Path {
    fn validate_format<F: FnOnce(&Path) -> Result<(), String>>(
        &self,
        validate_fn: F,
    ) -> (result: Result<(), FormatErrorParams>)
        ensures
            exists|answer: Result<(), String>|
                call_ensures(validate_fn, (self,), answer) && format_outcome(answer, result),
    {
        format_result(validate_fn(self))
    }
}

impl ValidateFormat<Path> for &Path {
    fn validate_format<F: FnOnce(&Path) -> Result<(), String>>(
        &self,
        validate_fn: F,
    ) -> (result: Result<(), FormatErrorParams>)
        ensures
            exists|answer: Result<(), String>|
                call_ensures(validate_fn, (*self,), answer) && format_outcome(answer, result),
    {
        format_result(validate_fn(*self))
    }
}

impl ValidateFormat<Path> for PathBuf {
    fn validate_format<F: FnOnce(&Path) -> Result<(), String>>(
        &self,
        validate_fn: F,
    ) -> (result: Result<(), FormatErrorParams>)
        ensures
            exists|value: &Path, answer: Result<(), String>|
                call_ensures(PathBuf::as_path, (self,), value) && call_ensures(
                    validate_fn,
                    (value,),
                    answer,
                ) && format_outcome(answer, result),
    {
        format_result(validate_fn(self.as_path()))
    }
}

impl ValidateFormat<Path> for Cow<'_, Path> {
    fn validate_format<F: FnOnce(&Path) -> Result<(), String>>(
        &self,
        validate_fn: F,
    ) -> (result: Result<(), FormatErrorParams>)
        ensures
            *self matches Cow::Borrowed(borrowed) ==> exists|answer: Result<(), String>|
                call_ensures(validate_fn, (borrowed,), answer) && format_outcome(answer, result),
            *self matches Cow::Owned(owned) ==> exists|value: &Path, answer: Result<(), String>|
                call_ensures(PathBuf::as_path, (&owned,), value) && call_ensures(
                    validate_fn,
                    (value,),
                    answer,
                ) && format_outcome(answer, result),
    {
        match self {
            Cow::Borrowed(borrowed) => format_result(validate_fn(*borrowed)),
            Cow::Owned(owned) => format_result(validate_fn(owned.as_path())),
        }
    }
}

} // verus!
