use super::error::{ArrayErrors, Errors, VecErrors};
use vstd::prelude::*;

verus! {

impl ArrayErrors {
    /// The errors of a sequence itself together with the errors of its elements by index.
    pub fn new(errors: VecErrors, items: Vec<(usize, Errors)>) -> (array: Self)
        ensures
            array.errors == errors,
            array.items == items,
    {
        Self { errors, items }
    }

    /// Whether neither the sequence nor any element has errors.
    pub fn is_empty(&self) -> (empty: bool)
        ensures
            empty == (self@.errors.len() == 0 && self@.items.len() == 0),
    {
        self.errors.len() == 0 && self.items.len() == 0
    }
}

} // verus!
