use super::error::{entries_view, vec_errors_view, Error, ErrorView, MapErrors, VecErrors};
use super::errors::{find_key, lemma_find_key};
use super::well_formed::{
    error_well_formed, lemma_with_error_properties, lemma_with_errors_properties,
    lemma_without_key_properties, list_well_formed, properties_well_formed,
};
use crate::text::str_equal;
use vstd::prelude::*;

verus! {

/// The entries after `error` was reported for `key`: added to the list of the entry that has the
/// key, or, where none has, as the single error of a new last entry.
pub open spec fn with_error(
    entries: Seq<(Seq<char>, Seq<ErrorView>)>,
    key: Seq<char>,
    error: ErrorView,
) -> Seq<(Seq<char>, Seq<ErrorView>)> {
    match find_key(entries, key, 0) {
        Some(k) => entries.update(k, (key, entries[k].1.push(error))),
        None => entries.push((key, seq![error])),
    }
}

/// The entries after the list `errors` was reported for `key`, which changes nothing where the
/// list is empty.
pub open spec fn with_errors(
    entries: Seq<(Seq<char>, Seq<ErrorView>)>,
    key: Seq<char>,
    errors: Seq<ErrorView>,
) -> Seq<(Seq<char>, Seq<ErrorView>)> {
    if errors.len() == 0 {
        entries
    } else {
        match find_key(entries, key, 0) {
            Some(k) => entries.update(k, (key, entries[k].1 + errors)),
            None => entries.push((key, errors)),
        }
    }
}

/// The entries without the first entry that has the key: the last entry takes its place, and
/// the entries between them stay where they are.
pub open spec fn without_key(entries: Seq<(Seq<char>, Seq<ErrorView>)>, key: Seq<char>) -> Seq<
    (Seq<char>, Seq<ErrorView>),
> {
    match find_key(entries, key, 0) {
        Some(k) => entries.update(k, entries.last()).drop_last(),
        None => entries,
    }
}

impl MapErrors {
    /// A map without entries.
    pub fn new() -> (map: Self)
        ensures
            map@ == Seq::<(Seq<char>, Seq<ErrorView>)>::empty(),
    {
        let map = MapErrors { entries: Vec::new() };
        assert(map@ =~= Seq::<(Seq<char>, Seq<ErrorView>)>::empty());
        map
    }

    /// The number of fields that have errors.
    pub fn len(&self) -> (len: usize)
        ensures
            len == self@.len(),
    {
        self.entries.len()
    }

    /// Whether no field has errors.
    pub fn is_empty(&self) -> (empty: bool)
        ensures
            empty == (self@.len() == 0),
    {
        self.entries.len() == 0
    }

    /// The position of the entry of `key`.
    pub fn position(&self, key: &str) -> (found: Option<usize>)
        ensures
            match found {
                Some(k) => find_key(self@, key@, 0) == Some(k as int) && k < self@.len(),
                None => find_key(self@, key@, 0) is None,
            },
    {
        let ghost view = self@;
        let mut k: usize = 0;
        while k < self.entries.len()
            invariant
                k <= self.entries@.len(),
                view == self@,
                find_key(view, key@, 0) == find_key(view, key@, k as int),
            decreases self.entries@.len() - k,
        {
            if str_equal(self.entries[k].0, key) {
                return Some(k);
            }
            k = k + 1;
        }
        None
    }

    /// The errors of the field `key`, if it has any.
    pub fn get(&self, key: &str) -> (errors: Option<&VecErrors>)
        ensures
            match errors {
                Some(list) => find_key(self@, key@, 0) matches Some(k) && vec_errors_view(*list)
                    == self@[k].1,
                None => find_key(self@, key@, 0) is None,
            },
    {
        match self.position(key) {
            Some(k) => Some(&self.entries[k].1),
            None => None,
        }
    }

    /// Reports `error` for the field `key`.
    pub fn push(&mut self, key: &'static str, error: Error)
        ensures
            final(self)@ == with_error(old(self)@, key@, error@),
            properties_well_formed(old(self)@) && error_well_formed(error@)
                ==> properties_well_formed(final(self)@),
    {
        proof {
            if properties_well_formed(self@) && error_well_formed(error@) {
                lemma_with_error_properties(self@, key@, error@);
            }
        }
        match self.position(key) {
            Some(k) => {
                let ghost before = self.entries;
                proof {
                    lemma_find_key(entries_view(before), key@, 0);
                }
                self.entries[k].1.push(error);
                proof {
                    assert(vec_errors_view(self.entries@[k as int].1) =~= vec_errors_view(
                        before@[k as int].1,
                    ).push(error@));
                    assert(entries_view(self.entries) =~= entries_view(before).update(
                        k as int,
                        (key@, vec_errors_view(self.entries@[k as int].1)),
                    ));
                }
            },
            None => {
                let ghost before = self.entries;
                let mut list: VecErrors = Vec::new();
                list.push(error);
                proof {
                    assert(vec_errors_view(list) =~= seq![error@]);
                }
                self.entries.push((key, list));
                proof {
                    assert(entries_view(self.entries) =~= entries_view(before).push(
                        (key@, seq![error@]),
                    ));
                }
            },
        }
    }

    /// Reports a list of errors for the field `key`. An empty list leaves the map as it is.
    pub fn extend(&mut self, key: &'static str, errors: VecErrors)
        ensures
            final(self)@ == with_errors(old(self)@, key@, vec_errors_view(errors)),
            properties_well_formed(old(self)@) && list_well_formed(vec_errors_view(errors))
                ==> properties_well_formed(final(self)@),
    {
        proof {
            if properties_well_formed(self@) && list_well_formed(vec_errors_view(errors)) {
                lemma_with_errors_properties(self@, key@, vec_errors_view(errors));
            }
        }
        let mut errors = errors;
        if errors.len() == 0 {
            return ;
        }
        match self.position(key) {
            Some(k) => {
                let ghost before = self.entries;
                let ghost added = errors;
                proof {
                    lemma_find_key(entries_view(before), key@, 0);
                }
                self.entries[k].1.append(&mut errors);
                proof {
                    assert(vec_errors_view(self.entries@[k as int].1) =~= vec_errors_view(
                        before@[k as int].1,
                    ) + vec_errors_view(added));
                    assert(entries_view(self.entries) =~= entries_view(before).update(
                        k as int,
                        (key@, vec_errors_view(self.entries@[k as int].1)),
                    ));
                }
            },
            None => {
                let ghost before = self.entries;
                let ghost added = errors;
                self.entries.push((key, errors));
                proof {
                    assert(entries_view(self.entries) =~= entries_view(before).push(
                        (key@, vec_errors_view(added)),
                    ));
                }
            },
        }
    }

    /// Takes the errors of the field `key` out of the map. The last entry of the map takes the
    /// place of the one that leaves, so the order of the others is kept only up to that entry.
    pub fn remove(&mut self, key: &str) -> (errors: Option<VecErrors>)
        ensures
            final(self)@ == without_key(old(self)@, key@),
            properties_well_formed(old(self)@) ==> properties_well_formed(final(self)@),
            match errors {
                Some(list) => find_key(old(self)@, key@, 0) matches Some(k) && vec_errors_view(list)
                    == old(self)@[k].1,
                None => find_key(old(self)@, key@, 0) is None,
            },
    {
        match self.position(key) {
            Some(k) => {
                let ghost before = self.entries;
                let entry = self.entries.swap_remove(k);
                proof {
                    assert(entries_view(self.entries) =~= entries_view(before).update(
                        k as int,
                        entries_view(before).last(),
                    ).drop_last());
                    if properties_well_formed(entries_view(before)) {
                        lemma_without_key_properties(entries_view(before), key@);
                    }
                }
                Some(entry.1)
            },
            None => None,
        }
    }
}

} // verus!
