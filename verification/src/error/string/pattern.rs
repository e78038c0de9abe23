use crate::error::{compose, Failure, ToDefaultMessage};
use vstd::prelude::*;

verus! {

/// Payload of a violated `pattern` constraint: the source text of the pattern.
#[derive(Debug, Clone)]
pub struct PatternErrorParams {
    pub pattern: String,
}

impl PatternErrorParams {
    pub fn new(pattern: &str) -> (params: Self)
        ensures
            params.pattern@ == pattern@,
    {
        Self { pattern: pattern.to_owned() }
    }

    pub fn pattern(&self) -> (pattern: &str)
        ensures
            pattern@ == self.pattern@,
    {
        self.pattern.as_str()
    }

    pub open spec fn failure(&self) -> Failure {
        Failure::Pattern(self.pattern@)
    }
}

impl ToDefaultMessage for PatternErrorParams {
    fn to_default_message(&self) -> (text: String)
        ensures
            text@ == self.failure().default_message(),
    {
        compose("The value must match the pattern of \"", self.pattern.as_str(), "\".")
    }
}

} // verus!
