use crate::error::{compose, Failure, ToDefaultMessage};
use vstd::prelude::*;

verus! {

/// Payload of a violated `format` constraint: the name of the format that the value does not
/// follow, as the format predicate reported it.
#[derive(Debug, Clone)]
pub struct FormatErrorParams {
    pub format: String,
}

impl FormatErrorParams {
    pub fn new(format: &str) -> (params: Self)
        ensures
            params.format@ == format@,
    {
        Self { format: format.to_owned() }
    }

    #[allow(dead_code)]
    pub fn format(&self) -> (format: &str)
        ensures
            format@ == self.format@,
    {
        self.format.as_str()
    }

    pub open spec fn failure(&self) -> Failure {
        Failure::Format(self.format@)
    }
}

impl ToDefaultMessage for FormatErrorParams {
    fn to_default_message(&self) -> (text: String)
        ensures
            text@ == self.failure().default_message(),
    {
        compose("The value does not follow the \"", self.format.as_str(), "\" format.")
    }
}

} // verus!
