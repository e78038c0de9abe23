use super::{compose_count, Failure, ToDefaultMessage};
use vstd::prelude::*;

verus! {

/// Payload of a violated `min_properties` constraint.
#[derive(Debug, Clone, Copy)]
pub struct MinPropertiesErrorParams {
    pub min_properties: usize,
}

impl MinPropertiesErrorParams {
    pub fn new(min_properties: usize) -> (params: Self)
        ensures
            params.min_properties == min_properties,
    {
        Self { min_properties }
    }

    pub fn min_properties(&self) -> (min_properties: usize)
        ensures
            min_properties == self.min_properties,
    {
        self.min_properties
    }

    pub open spec fn failure(&self) -> Failure {
        Failure::MinProperties(self.min_properties as nat)
    }
}

impl ToDefaultMessage for MinPropertiesErrorParams {
    fn to_default_message(&self) -> (text: String)
        ensures
            text@ == self.failure().default_message(),
    {
        compose_count("The size of the properties must be `>= ", self.min_properties, "`.")
    }
}

/// Payload of a violated `max_properties` constraint.
#[derive(Debug, Clone, Copy)]
pub struct MaxPropertiesErrorParams {
    pub max_properties: usize,
}

impl MaxPropertiesErrorParams {
    pub fn new(max_properties: usize) -> (params: Self)
        ensures
            params.max_properties == max_properties,
    {
        Self { max_properties }
    }

    pub fn max_properties(&self) -> (max_properties: usize)
        ensures
            max_properties == self.max_properties,
    {
        self.max_properties
    }

    pub open spec fn failure(&self) -> Failure {
        Failure::MaxProperties(self.max_properties as nat)
    }
}

impl ToDefaultMessage for MaxPropertiesErrorParams {
    fn to_default_message(&self) -> (text: String)
        ensures
            text@ == self.failure().default_message(),
    {
        compose_count("The size of the properties must be `<= ", self.max_properties, "`.")
    }
}

} // verus!
