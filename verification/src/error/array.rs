use super::{compose_count, Failure, ToDefaultMessage};
use vstd::prelude::*;

verus! {

/// Payload of a violated `min_items` constraint.
#[derive(Debug, Clone, Copy)]
pub struct MinItemsErrorParams {
    pub min_items: usize,
}

impl MinItemsErrorParams {
    pub fn new(min_items: usize) -> (params: Self)
        ensures
            params.min_items == min_items,
    {
        Self { min_items }
    }

    pub fn min_items(&self) -> (min_items: usize)
        ensures
            min_items == self.min_items,
    {
        self.min_items
    }

    pub open spec fn failure(&self) -> Failure {
        Failure::MinItems(self.min_items as nat)
    }
}

impl ToDefaultMessage for MinItemsErrorParams {
    fn to_default_message(&self) -> (text: String)
        ensures
            text@ == self.failure().default_message(),
    {
        compose_count("The length of the items must be `>= ", self.min_items, "`.")
    }
}

/// Payload of a violated `max_items` constraint.
#[derive(Debug, Clone, Copy)]
pub struct MaxItemsErrorParams {
    pub max_items: usize,
}

impl MaxItemsErrorParams {
    pub fn new(max_items: usize) -> (params: Self)
        ensures
            params.max_items == max_items,
    {
        Self { max_items }
    }

    pub fn max_items(&self) -> (max_items: usize)
        ensures
            max_items == self.max_items,
    {
        self.max_items
    }

    pub open spec fn failure(&self) -> Failure {
        Failure::MaxItems(self.max_items as nat)
    }
}

impl ToDefaultMessage for MaxItemsErrorParams {
    fn to_default_message(&self) -> (text: String)
        ensures
            text@ == self.failure().default_message(),
    {
        compose_count("The length of the items must be `<= ", self.max_items, "`.")
    }
}

/// Payload of a violated `unique_items` constraint.
#[derive(Debug, Clone, Copy)]
pub struct UniqueItemsErrorParams {}

impl UniqueItemsErrorParams {
    pub fn new() -> (params: Self)
        ensures
            params.failure() == Failure::UniqueItems,
    {
        Self {  }
    }

    pub open spec fn failure(&self) -> Failure {
        Failure::UniqueItems
    }
}

impl ToDefaultMessage for UniqueItemsErrorParams {
    fn to_default_message(&self) -> (text: String)
        ensures
            text@ == self.failure().default_message(),
    {
        "The items must be unique.".to_owned()
    }
}

} // verus!
