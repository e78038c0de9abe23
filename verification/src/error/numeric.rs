use super::number::Number;
use super::{compose, Failure, ToDefaultMessage};
use vstd::prelude::*;

verus! {

/// Payload of a violated `minimum` constraint.
#[derive(Debug, Clone, Copy)]
pub struct MinimumErrorParams {
    pub minimum: Number,
}

impl MinimumErrorParams {
    pub fn new(minimum: Number) -> (params: Self)
        ensures
            params.minimum == minimum,
    {
        Self { minimum }
    }

    pub fn minimum(&self) -> (minimum: Number)
        ensures
            minimum == self.minimum,
    {
        self.minimum
    }

    pub open spec fn failure(&self) -> Failure {
        Failure::Minimum(self.minimum)
    }
}

impl ToDefaultMessage for MinimumErrorParams {
    fn to_default_message(&self) -> (text: String)
        ensures
            text@ == self.failure().default_message(),
    {
        let number: String = self.minimum.to_text();
        compose("The number must be `>= ", number.as_str(), "`.")
    }
}

/// Payload of a violated `maximum` constraint.
#[derive(Debug, Clone, Copy)]
pub struct MaximumErrorParams {
    pub maximum: Number,
}

impl MaximumErrorParams {
    pub fn new(maximum: Number) -> (params: Self)
        ensures
            params.maximum == maximum,
    {
        Self { maximum }
    }

    pub fn maximum(&self) -> (maximum: Number)
        ensures
            maximum == self.maximum,
    {
        self.maximum
    }

    pub open spec fn failure(&self) -> Failure {
        Failure::Maximum(self.maximum)
    }
}

impl ToDefaultMessage for MaximumErrorParams {
    fn to_default_message(&self) -> (text: String)
        ensures
            text@ == self.failure().default_message(),
    {
        let number: String = self.maximum.to_text();
        compose("The number must be `<= ", number.as_str(), "`.")
    }
}

/// Payload of a violated `exclusive_minimum` constraint.
#[derive(Debug, Clone, Copy)]
pub struct ExclusiveMinimumErrorParams {
    pub exclusive_minimum: Number,
}

impl ExclusiveMinimumErrorParams {
    pub fn new(exclusive_minimum: Number) -> (params: Self)
        ensures
            params.exclusive_minimum == exclusive_minimum,
    {
        Self { exclusive_minimum }
    }

    pub fn exclusive_minimum(&self) -> (exclusive_minimum: Number)
        ensures
            exclusive_minimum == self.exclusive_minimum,
    {
        self.exclusive_minimum
    }

    pub open spec fn failure(&self) -> Failure {
        Failure::ExclusiveMinimum(self.exclusive_minimum)
    }
}

impl ToDefaultMessage for ExclusiveMinimumErrorParams {
    fn to_default_message(&self) -> (text: String)
        ensures
            text@ == self.failure().default_message(),
    {
        let number: String = self.exclusive_minimum.to_text();
        compose("The number must be `> ", number.as_str(), "`.")
    }
}

/// Payload of a violated `exclusive_maximum` constraint.
#[derive(Debug, Clone, Copy)]
pub struct ExclusiveMaximumErrorParams {
    pub exclusive_maximum: Number,
}

impl ExclusiveMaximumErrorParams {
    pub fn new(exclusive_maximum: Number) -> (params: Self)
        ensures
            params.exclusive_maximum == exclusive_maximum,
    {
        Self { exclusive_maximum }
    }

    pub fn exclusive_maximum(&self) -> (exclusive_maximum: Number)
        ensures
            exclusive_maximum == self.exclusive_maximum,
    {
        self.exclusive_maximum
    }

    pub open spec fn failure(&self) -> Failure {
        Failure::ExclusiveMaximum(self.exclusive_maximum)
    }
}

impl ToDefaultMessage for ExclusiveMaximumErrorParams {
    fn to_default_message(&self) -> (text: String)
        ensures
            text@ == self.failure().default_message(),
    {
        let number: String = self.exclusive_maximum.to_text();
        compose("The number must be `< ", number.as_str(), "`.")
    }
}

/// Payload of a violated `multiple_of` constraint.
#[derive(Debug, Clone, Copy)]
pub struct MultipleOfErrorParams {
    pub multiple_of: Number,
}

impl MultipleOfErrorParams {
    pub fn new(multiple_of: Number) -> (params: Self)
        ensures
            params.multiple_of == multiple_of,
    {
        Self { multiple_of }
    }

    pub fn multiple_of(&self) -> (multiple_of: Number)
        ensures
            multiple_of == self.multiple_of,
    {
        self.multiple_of
    }

    pub open spec fn failure(&self) -> Failure {
        Failure::MultipleOf(self.multiple_of)
    }
}

impl ToDefaultMessage for MultipleOfErrorParams {
    fn to_default_message(&self) -> (text: String)
        ensures
            text@ == self.failure().default_message(),
    {
        let number: String = self.multiple_of.to_text();
        compose("The value must be multiple of `", number.as_str(), "`.")
    }
}

} // verus!
