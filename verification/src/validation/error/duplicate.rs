use super::error::{
    entries_view, items_view, vec_errors_view, ArrayErrors, Error, Errors, MapErrors,
    ObjectErrors, VecErrors,
};
use crate::error::generic::copy_literals;
use crate::error::{EnumerateErrorParams, FormatErrorParams, Message, PatternErrorParams};
use vstd::prelude::*;

verus! {

impl Error {
    /// A second error that holds the same.
    pub fn duplicate(&self) -> (copy: Error)
        ensures
            copy@ == self@,
        decreases self, 0nat,
    {
        match self {
            Error::Minimum(m) => Error::Minimum(Message { error: m.error, text: m.text.clone() }),
            Error::Maximum(m) => Error::Maximum(Message { error: m.error, text: m.text.clone() }),
            Error::ExclusiveMinimum(m) => Error::ExclusiveMinimum(
                Message { error: m.error, text: m.text.clone() },
            ),
            Error::ExclusiveMaximum(m) => Error::ExclusiveMaximum(
                Message { error: m.error, text: m.text.clone() },
            ),
            Error::MultipleOf(m) => Error::MultipleOf(
                Message { error: m.error, text: m.text.clone() },
            ),
            Error::MinLength(m) => Error::MinLength(
                Message { error: m.error, text: m.text.clone() },
            ),
            Error::MaxLength(m) => Error::MaxLength(
                Message { error: m.error, text: m.text.clone() },
            ),
            Error::MinItems(m) => Error::MinItems(Message { error: m.error, text: m.text.clone() }),
            Error::MaxItems(m) => Error::MaxItems(Message { error: m.error, text: m.text.clone() }),
            Error::UniqueItems(m) => Error::UniqueItems(
                Message { error: m.error, text: m.text.clone() },
            ),
            Error::MinProperties(m) => Error::MinProperties(
                Message { error: m.error, text: m.text.clone() },
            ),
            Error::MaxProperties(m) => Error::MaxProperties(
                Message { error: m.error, text: m.text.clone() },
            ),
            Error::Pattern(m) => Error::Pattern(
                Message { error: PatternErrorParams::new(m.error.pattern()), text: m.text.clone() },
            ),
            Error::Format(m) => Error::Format(
                Message { error: FormatErrorParams::new(m.error.format()), text: m.text.clone() },
            ),
            Error::Enumerate(m) => Error::Enumerate(
                Message {
                    error: EnumerateErrorParams::new(copy_literals(&m.error.enumerate)),
                    text: m.text.clone(),
                },
            ),
            Error::Custom(text) => Error::Custom(text.clone()),
            Error::Items(array) => Error::Items(array.duplicate()),
            Error::Properties(object) => Error::Properties(object.duplicate()),
        }
    }
}

/// A second list of errors that hold the same, in the same order.
pub fn duplicate_list(list: &VecErrors) -> (copy: VecErrors)
    ensures
        vec_errors_view(copy) == vec_errors_view(*list),
    decreases list, 0nat,
{
    let mut copy: VecErrors = Vec::new();
    let mut i: usize = 0;
    while i < list.len()
        invariant
            i <= list@.len(),
            copy@.len() == i,
            forall|k: int| 0 <= k < i ==> (#[trigger] copy@[k])@ == list@[k]@,
        decreases list@.len() - i,
    {
        proof {
            assert(decreases_to!(*list => list@[i as int]));
        }
        copy.push(list[i].duplicate());
        i = i + 1;
    }
    proof {
        assert(vec_errors_view(copy) =~= vec_errors_view(*list));
    }
    copy
}

impl ArrayErrors {
    /// A second aggregate that holds the same.
    pub fn duplicate(&self) -> (copy: ArrayErrors)
        ensures
            copy@ == self@,
        decreases self, 0nat,
    {
        let errors: VecErrors = duplicate_list(&self.errors);
        let mut items: Vec<(usize, Errors)> = Vec::new();
        let mut i: usize = 0;
        while i < self.items.len()
            invariant
                i <= self.items@.len(),
                items@.len() == i,
                forall|k: int|
                    0 <= k < i ==> (#[trigger] items@[k]).0 == self.items@[k].0 && items@[k].1@
                        == self.items@[k].1@,
            decreases self.items@.len() - i,
        {
            proof {
                assert(decreases_to!(self.items => self.items@[i as int]));
            }
            items.push((self.items[i].0, self.items[i].1.duplicate()));
            i = i + 1;
        }
        proof {
            assert(items_view(items) =~= items_view(self.items));
        }
        ArrayErrors { errors, items }
    }
}

impl MapErrors {
    /// A second map that holds the same.
    pub fn duplicate(&self) -> (copy: MapErrors)
        ensures
            copy@ == self@,
        decreases self, 0nat,
    {
        let mut entries: Vec<(&'static str, VecErrors)> = Vec::new();
        let mut i: usize = 0;
        while i < self.entries.len()
            invariant
                i <= self.entries@.len(),
                entries@.len() == i,
                forall|k: int|
                    0 <= k < i ==> (#[trigger] entries@[k]).0@ == self.entries@[k].0@
                        && vec_errors_view(entries@[k].1) == vec_errors_view(self.entries@[k].1),
            decreases self.entries@.len() - i,
        {
            proof {
                assert(decreases_to!(self.entries => self.entries@[i as int]));
            }
            entries.push((self.entries[i].0, duplicate_list(&self.entries[i].1)));
            i = i + 1;
        }
        proof {
            assert(entries_view(entries) =~= entries_view(self.entries));
        }
        MapErrors { entries }
    }
}

impl ObjectErrors {
    /// A second aggregate that holds the same.
    pub fn duplicate(&self) -> (copy: ObjectErrors)
        ensures
            copy@ == self@,
        decreases self, 0nat,
    {
        ObjectErrors {
            errors: duplicate_list(&self.errors),
            properties: self.properties.duplicate(),
        }
    }
}

impl Errors {
    /// A second result that holds the same.
    pub fn duplicate(&self) -> (copy: Errors)
        ensures
            copy@ == self@,
        decreases self, 0nat,
    {
        match self {
            Errors::Array(array) => Errors::Array(array.duplicate()),
            Errors::Object(object) => Errors::Object(object.duplicate()),
            Errors::NewType(list) => Errors::NewType(duplicate_list(list)),
        }
    }
}

impl Clone for Errors {
    fn clone(&self) -> (copy: Self)
        ensures
            copy@ == self@,
    {
        self.duplicate()
    }
}

impl Clone for Error {
    fn clone(&self) -> (copy: Self)
        ensures
            copy@ == self@,
    {
        self.duplicate()
    }
}

impl Clone for ArrayErrors {
    fn clone(&self) -> (copy: Self)
        ensures
            copy@ == self@,
    {
        self.duplicate()
    }
}

impl Clone for ObjectErrors {
    fn clone(&self) -> (copy: Self)
        ensures
            copy@ == self@,
    {
        self.duplicate()
    }
}

impl Clone for MapErrors {
    fn clone(&self) -> (copy: Self)
        ensures
            copy@ == self@,
    {
        self.duplicate()
    }
}

} // verus!
