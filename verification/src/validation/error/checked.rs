use super::error::{
    entries_view, items_view, vec_errors_view, ArrayErrors, Error, Errors, MapErrors,
    ObjectErrors, VecErrors,
};
use super::errors::distinct_keys;
use super::well_formed::{
    array_well_formed, error_well_formed, items_well_formed, list_well_formed,
    object_well_formed, properties_well_formed, well_formed,
};
use crate::text::str_equal;
use vstd::prelude::*;

verus! {

/// Whether no index occurs twice among the entries.
pub fn distinct_indices(items: &Vec<(usize, Errors)>) -> (distinct: bool)
    ensures
        distinct == distinct_keys(items_view(*items)),
{
    let ghost view = items_view(*items);
    let mut j: usize = 0;
    while j < items.len()
        invariant
            j <= items@.len(),
            view == items_view(*items),
            forall|a: int, b: int| 0 <= a < b < j ==> view[a].0 != view[b].0,
        decreases items@.len() - j,
    {
        let mut i: usize = 0;
        while i < j
            invariant
                i <= j < items@.len(),
                view == items_view(*items),
                forall|a: int| 0 <= a < i ==> view[a].0 != view[j as int].0,
            decreases j - i,
        {
            if items[i].0 == items[j].0 {
                proof {
                    assert(view[i as int].0 == view[j as int].0);
                }
                return false;
            }
            i = i + 1;
        }
        j = j + 1;
    }
    true
}

/// Whether no name occurs twice among the entries.
pub fn distinct_names(entries: &Vec<(&'static str, VecErrors)>) -> (distinct: bool)
    ensures
        distinct == distinct_keys(entries_view(*entries)),
{
    let ghost view = entries_view(*entries);
    let mut j: usize = 0;
    while j < entries.len()
        invariant
            j <= entries@.len(),
            view == entries_view(*entries),
            forall|a: int, b: int| 0 <= a < b < j ==> view[a].0 != view[b].0,
        decreases entries@.len() - j,
    {
        let mut i: usize = 0;
        while i < j
            invariant
                i <= j < entries@.len(),
                view == entries_view(*entries),
                forall|a: int| 0 <= a < i ==> view[a].0 != view[j as int].0,
            decreases j - i,
        {
            if str_equal(entries[i].0, entries[j].0) {
                proof {
                    assert(view[i as int].0 == view[j as int].0);
                }
                return false;
            }
            i = i + 1;
        }
        j = j + 1;
    }
    true
}

/// Whether every error of a list is well formed.
pub fn list_is_well_formed(list: &VecErrors) -> (holds: bool)
    ensures
        holds == list_well_formed(vec_errors_view(*list)),
    decreases list, 0nat,
{
    let ghost view = vec_errors_view(*list);
    let mut i: usize = 0;
    while i < list.len()
        invariant
            i <= list@.len(),
            view == vec_errors_view(*list),
            forall|k: int| 0 <= k < i ==> error_well_formed(#[trigger] view[k]),
        decreases list@.len() - i,
    {
        proof {
            assert(decreases_to!(*list => list@[i as int]));
            assert(view[i as int] == list@[i as int]@);
        }
        if !list[i].is_well_formed() {
            return false;
        }
        i = i + 1;
    }
    true
}

impl Error {
    /// Whether the error is well formed: an aggregate inside it is.
    pub fn is_well_formed(&self) -> (holds: bool)
        ensures
            holds == error_well_formed(self@),
        decreases self, 1nat,
    {
        match self {
            Error::Items(array) => array.is_well_formed(),
            Error::Properties(object) => object.is_well_formed(),
            _ => true,
        }
    }
}

impl ArrayErrors {
    /// Whether the errors of the sequence are well formed: no index occurs twice, every index
    /// that is present has at least one error, and all that is nested is well formed in turn.
    pub fn is_well_formed(&self) -> (holds: bool)
        ensures
            holds == array_well_formed(self@),
        decreases self, 0nat,
    {
        if !list_is_well_formed(&self.errors) {
            return false;
        }
        if !distinct_indices(&self.items) {
            return false;
        }
        let ghost view = items_view(self.items);
        let mut i: usize = 0;
        while i < self.items.len()
            invariant
                i <= self.items@.len(),
                view == items_view(self.items),
                forall|k: int|
                    0 <= k < i ==> !super::errors::is_empty((#[trigger] view[k]).1) && well_formed(
                        view[k].1,
                    ),
            decreases self.items@.len() - i,
        {
            proof {
                assert(decreases_to!(self.items => self.items@[i as int]));
                assert(view[i as int].1 == self.items@[i as int].1@);
            }
            if self.items[i].1.is_empty() || !self.items[i].1.is_well_formed() {
                return false;
            }
            i = i + 1;
        }
        proof {
            assert(items_well_formed(view));
        }
        true
    }
}

impl MapErrors {
    /// Whether the errors of the fields are well formed: no name occurs twice, every name that
    /// is present has at least one error, and all that is nested is well formed in turn.
    pub fn is_well_formed(&self) -> (holds: bool)
        ensures
            holds == properties_well_formed(self@),
        decreases self, 0nat,
    {
        if !distinct_names(&self.entries) {
            return false;
        }
        let ghost view = entries_view(self.entries);
        let mut i: usize = 0;
        while i < self.entries.len()
            invariant
                i <= self.entries@.len(),
                view == entries_view(self.entries),
                forall|k: int|
                    0 <= k < i ==> (#[trigger] view[k]).1.len() > 0 && list_well_formed(view[k].1),
            decreases self.entries@.len() - i,
        {
            proof {
                assert(decreases_to!(self.entries => self.entries@[i as int]));
                assert(view[i as int].1 == vec_errors_view(self.entries@[i as int].1));
            }
            if self.entries[i].1.len() == 0 || !list_is_well_formed(&self.entries[i].1) {
                return false;
            }
            i = i + 1;
        }
        proof {
            assert(properties_well_formed(view));
        }
        true
    }
}

impl ObjectErrors {
    /// Whether the errors of the struct are well formed.
    pub fn is_well_formed(&self) -> (holds: bool)
        ensures
            holds == object_well_formed(self@),
        decreases self, 1nat,
    {
        list_is_well_formed(&self.errors) && self.properties.is_well_formed()
    }
}

impl Errors {
    /// Whether the result is well formed: no index and no name occurs twice at any depth, and
    /// none is present without an error.
    pub fn is_well_formed(&self) -> (holds: bool)
        ensures
            holds == well_formed(self@),
        decreases self, 2nat,
    {
        match self {
            Errors::Array(array) => array.is_well_formed(),
            Errors::Object(object) => object.is_well_formed(),
            Errors::NewType(list) => list_is_well_formed(list),
        }
    }
}

} // verus!
