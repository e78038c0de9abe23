use crate::error::{compose_count, Failure, ToDefaultMessage};
use vstd::prelude::*;

verus! {

/// Payload of a violated `min_length` constraint.
#[derive(Debug, Clone, Copy)]
pub struct MinLengthErrorParams {
    pub min_length: usize,
}

impl MinLengthErrorParams {
    pub fn new(min_length: usize) -> (params: Self)
        ensures
            params.min_length == min_length,
    {
        Self { min_length }
    }

    pub fn min_length(&self) -> (min_length: usize)
        ensures
            min_length == self.min_length,
    {
        self.min_length
    }

    pub open spec fn failure(&self) -> Failure {
        Failure::MinLength(self.min_length as nat)
    }
}

impl ToDefaultMessage for MinLengthErrorParams {
    fn to_default_message(&self) -> (text: String)
        ensures
            text@ == self.failure().default_message(),
    {
        compose_count("The length of the value must be `>= ", self.min_length, "`.")
    }
}

/// Payload of a violated `max_length` constraint.
#[derive(Debug, Clone, Copy)]
pub struct MaxLengthErrorParams {
    pub max_length: usize,
}

impl MaxLengthErrorParams {
    pub fn new(max_length: usize) -> (params: Self)
        ensures
            params.max_length == max_length,
    {
        Self { max_length }
    }

    pub fn max_length(&self) -> (max_length: usize)
        ensures
            max_length == self.max_length,
    {
        self.max_length
    }

    pub open spec fn failure(&self) -> Failure {
        Failure::MaxLength(self.max_length as nat)
    }
}

impl ToDefaultMessage for MaxLengthErrorParams {
    fn to_default_message(&self) -> (text: String)
        ensures
            text@ == self.failure().default_message(),
    {
        compose_count("The length of the value must be `<= ", self.max_length, "`.")
    }
}

} // verus!
