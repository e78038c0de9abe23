use crate::error::{MaxPropertiesErrorParams, MinPropertiesErrorParams};
use std::collections::{BTreeMap, HashMap};
use vstd::prelude::*;

verus! {

/// Size validation of an object against an inclusive lower bound on the number of its properties.
pub fn validate_object_min_properties(
    size: usize,
    min_properties: usize,
) -> (result: Result<(), MinPropertiesErrorParams>)
    ensures
        result is Ok <==> size >= min_properties,
        result matches Err(params) ==> params.min_properties == min_properties,
{
    if size >= min_properties {
        Ok(())
    } else {
        Err(MinPropertiesErrorParams::new(min_properties))
    }
}

/// Minimum size validation of the object properties.
///
/// See <https://json-schema.org/understanding-json-schema/reference/object.html#size>
pub trait ValidateMinProperties {
    fn validate_min_properties(
        &self,
        min_properties: usize,
    ) -> Result<(), MinPropertiesErrorParams>;
}

impl<K, V> ValidateMinProperties for HashMap<K, V> {
    fn validate_min_properties(
        &self,
        min_properties: usize,
    ) -> (result: Result<(), MinPropertiesErrorParams>)
        ensures
            result is Ok <==> self.len() >= min_properties,
            result matches Err(params) ==> params.min_properties == min_properties,
    {
        validate_object_min_properties(self.len(), min_properties)
    }
}

impl<K, V> ValidateMinProperties for BTreeMap<K, V> {
    fn validate_min_properties(
        &self,
        min_properties: usize,
    ) -> (result: Result<(), MinPropertiesErrorParams>)
        ensures
            result is Ok <==> self.len() >= min_properties,
            result matches Err(params) ==> params.min_properties == min_properties,
    {
        validate_object_min_properties(self.len(), min_properties)
    }
}

/// Size validation of an object against an inclusive upper bound on the number of its properties.
pub fn validate_object_max_properties(
    size: usize,
    max_properties: usize,
) -> (result: Result<(), MaxPropertiesErrorParams>)
    ensures
        result is Ok <==> size <= max_properties,
        result matches Err(params) ==> params.max_properties == max_properties,
{
    if size <= max_properties {
        Ok(())
    } else {
        Err(MaxPropertiesErrorParams::new(max_properties))
    }
}

/// Maximum size validation of the object properties.
///
/// See <https://json-schema.org/understanding-json-schema/reference/object.html#size>
pub trait ValidateMaxProperties {
    fn validate_max_properties(
        &self,
        max_properties: usize,
    ) -> Result<(), MaxPropertiesErrorParams>;
}

impl<K, V> ValidateMaxProperties for HashMap<K, V> {
    fn validate_max_properties(
        &self,
        max_properties: usize,
    ) -> (result: Result<(), MaxPropertiesErrorParams>)
        ensures
            result is Ok <==> self.len() <= max_properties,
            result matches Err(params) ==> params.max_properties == max_properties,
    {
        validate_object_max_properties(self.len(), max_properties)
    }
}

impl<K, V> ValidateMaxProperties for BTreeMap<K, V> {
    fn validate_max_properties(
        &self,
        max_properties: usize,
    ) -> (result: Result<(), MaxPropertiesErrorParams>)
        ensures
            result is Ok <==> self.len() <= max_properties,
            result matches Err(params) ==> params.max_properties == max_properties,
    {
        validate_object_max_properties(self.len(), max_properties)
    }
}

} // verus!
