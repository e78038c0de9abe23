use super::error::{MapErrors, ObjectErrors, VecErrors};
use vstd::prelude::*;

verus! {

impl ObjectErrors {
    /// The errors of a struct as a whole together with the errors of its fields by name.
    pub fn new(errors: VecErrors, properties: MapErrors) -> (object: Self)
        ensures
            object.errors == errors,
            object.properties == properties,
    {
        Self { errors, properties }
    }

    /// Whether neither the struct nor any field has errors.
    pub fn is_empty(&self) -> (empty: bool)
        ensures
            empty == (self@.errors.len() == 0 && self@.properties.len() == 0),
    {
        self.errors.len() == 0 && self.properties.entries.len() == 0
    }
}

} // verus!
