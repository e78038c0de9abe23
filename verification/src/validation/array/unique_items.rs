use crate::error::UniqueItemsErrorParams;
use vstd::prelude::*;
use vstd::std_specs::cmp::PartialEqSpec;

verus! {

/// No two elements of the sequence are equal under the equality of their type.
pub open spec fn all_distinct<T: PartialEq>(items: Seq<T>) -> bool {
    forall|i: int, j: int| 0 <= i < j < items.len() ==> !(#[trigger] items[i].eq_spec(&items[j]))
}

/// Uniqueness validation of a sequence: fails if any two elements compare equal.
///
/// The contract speaks for element types whose `==` is specified (`T::obeys_eq_spec()`), as it
/// is for the integers, `bool` and `char`.
pub fn validate_array_unique_items<T: PartialEq>(
    value: &[T],
) -> (result: Result<(), UniqueItemsErrorParams>)
    ensures
        T::obeys_eq_spec() ==> (result is Ok <==> all_distinct(value@)),
{
    let len: usize = value.len();
    let mut j: usize = 0;
    while j < len
        invariant
            len == value@.len(),
            j <= len,
            T::obeys_eq_spec() ==> forall|a: int, b: int|
                0 <= a < b < j ==> !(#[trigger] value@[a].eq_spec(&value@[b])),
        decreases len - j,
    {
        let mut i: usize = 0;
        while i < j
            invariant
                len == value@.len(),
                i <= j < len,
                T::obeys_eq_spec() ==> forall|a: int|
                    0 <= a < i ==> !(#[trigger] value@[a].eq_spec(&value@[j as int])),
            decreases j - i,
        {
            if value[i] == value[j] {
                return Err(UniqueItemsErrorParams::new());
            }
            i = i + 1;
        }
        j = j + 1;
    }
    Ok(())
}

/// Uniqueness validation of the array items.
///
/// See <https://json-schema.org/understanding-json-schema/reference/array.html#unique_items>
pub trait ValidateUniqueItems {
    fn validate_unique_items(&self) -> Result<(), UniqueItemsErrorParams>;
}

impl<T: PartialEq> ValidateUniqueItems for Vec<T> {
    fn validate_unique_items(&self) -> (result: Result<(), UniqueItemsErrorParams>)
        ensures
            T::obeys_eq_spec() ==> (result is Ok <==> all_distinct(self@)),
    {
        validate_array_unique_items(self.as_slice())
    }
}

impl<T: PartialEq> ValidateUniqueItems for [T] {
    fn validate_unique_items(&self) -> (result: Result<(), UniqueItemsErrorParams>)
        ensures
            T::obeys_eq_spec() ==> (result is Ok <==> all_distinct(self@)),
    {
        validate_array_unique_items(self)
    }
}

} // verus!
