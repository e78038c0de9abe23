use super::error::{ArrayErrorsView, ErrorView, ErrorsView, ObjectErrorsView};
use super::errors::{
    distinct_keys, find_key, is_empty, items_mergeable, lemma_find_key, mergeable, merged,
    merged_items,
};
use super::map_errors::{with_error, with_errors, without_key};
use vstd::prelude::*;

verus! {

/// Whether an error is well formed: an aggregate inside it is.
pub open spec fn error_well_formed(error: ErrorView) -> bool
    decreases error, 0nat,
{
    match error {
        ErrorView::Items(array) => array_well_formed(array),
        ErrorView::Properties(object) => object_well_formed(object),
        _ => true,
    }
}

/// Whether every error of a list is well formed.
pub open spec fn list_well_formed(list: Seq<ErrorView>) -> bool
    decreases list, 0nat,
{
    forall|i: int| 0 <= i < list.len() ==> error_well_formed(#[trigger] list[i])
}

/// Whether the errors of a sequence are well formed: no index occurs twice, every index that is
/// present has at least one error, and all that is nested is well formed in turn.
pub open spec fn array_well_formed(array: ArrayErrorsView) -> bool
    decreases array, 0nat,
{
    &&& list_well_formed(array.errors)
    &&& items_well_formed(array.items)
}

/// Whether the errors of elements are well formed.
pub open spec fn items_well_formed(items: Seq<(nat, ErrorsView)>) -> bool
    decreases items, 0nat,
{
    &&& distinct_keys(items)
    &&& forall|i: int|
        0 <= i < items.len() ==> !is_empty((#[trigger] items[i]).1) && well_formed(items[i].1)
}

/// Whether the errors of fields are well formed: no name occurs twice, every name that is
/// present has at least one error, and all that is nested is well formed in turn.
pub open spec fn properties_well_formed(properties: Seq<(Seq<char>, Seq<ErrorView>)>) -> bool
    decreases properties, 0nat,
{
    &&& distinct_keys(properties)
    &&& forall|i: int|
        0 <= i < properties.len() ==> (#[trigger] properties[i]).1.len() > 0 && list_well_formed(
            properties[i].1,
        )
}

/// Whether the errors of a struct are well formed.
pub open spec fn object_well_formed(object: ObjectErrorsView) -> bool
    decreases object, 0nat,
{
    &&& list_well_formed(object.errors)
    &&& properties_well_formed(object.properties)
}

/// Whether a validation result is well formed.
pub open spec fn well_formed(errors: ErrorsView) -> bool
    decreases errors, 0nat,
{
    match errors {
        ErrorsView::Array(array) => array_well_formed(array),
        ErrorsView::Object(object) => object_well_formed(object),
        ErrorsView::NewType(list) => list_well_formed(list),
    }
}

/// Merging never takes an entry away from the element errors that it merges into.
pub proof fn lemma_merged_items_grow(xs: Seq<(nat, ErrorsView)>, ys: Seq<(nat, ErrorsView)>, n: nat)
    ensures
        merged_items(xs, ys, n).len() >= xs.len(),
    decreases n,
{
    if n == 0 || n > ys.len() {
    } else {
        lemma_merged_items_grow(xs, ys, (n - 1) as nat);
        lemma_find_key(merged_items(xs, ys, (n - 1) as nat), ys[n - 1].0, 0);
    }
}

/// A merge whose first part holds errors holds errors.
pub proof fn lemma_merged_not_empty(a: ErrorsView, b: ErrorsView)
    requires
        mergeable(a, b),
        !is_empty(a) || !is_empty(b),
    ensures
        !is_empty(merged(a, b)),
{
    match (a, b) {
        (ErrorsView::Array(x), ErrorsView::Array(y)) => {
            lemma_merged_items_grow(x.items, y.items, y.items.len());
            if x.errors.len() == 0 && x.items.len() == 0 && y.errors.len() == 0 {
                assert(y.items.len() > 0);
                lemma_find_key(
                    merged_items(x.items, y.items, (y.items.len() - 1) as nat),
                    y.items[y.items.len() - 1].0,
                    0,
                );
            }
        },
        _ => {},
    }
}

/// Two lists of well-formed errors, one after the other, are a list of well-formed errors.
pub proof fn lemma_lists_well_formed(first: Seq<ErrorView>, second: Seq<ErrorView>)
    requires
        list_well_formed(first),
        list_well_formed(second),
    ensures
        list_well_formed(first + second),
{
    assert forall|i: int| 0 <= i < (first + second).len() implies error_well_formed(
        #[trigger] (first + second)[i],
    ) by {
        if i < first.len() {
            assert((first + second)[i] == first[i]);
        } else {
            assert((first + second)[i] == second[i - first.len()]);
        }
    }
}

/// Merging keeps results well formed: what holds of both parts — every index and name once,
/// none without errors — holds of what the merge gives.
pub proof fn lemma_merged_well_formed(a: ErrorsView, b: ErrorsView)
    requires
        well_formed(a),
        well_formed(b),
        mergeable(a, b),
    ensures
        well_formed(merged(a, b)),
    decreases b, 0nat,
{
    match (a, b) {
        (ErrorsView::Array(x), ErrorsView::Array(y)) => {
            lemma_lists_well_formed(x.errors, y.errors);
            lemma_merged_items_well_formed(x.items, y.items, y.items.len());
        },
        (ErrorsView::Array(x), ErrorsView::NewType(list)) => {
            lemma_lists_well_formed(x.errors, list);
        },
        (ErrorsView::NewType(list), ErrorsView::Array(y)) => {
            lemma_lists_well_formed(list, y.errors);
        },
        (ErrorsView::NewType(x), ErrorsView::NewType(y)) => {
            lemma_lists_well_formed(x, y);
        },
        _ => {},
    }
}

/// Merging element errors keeps them well formed.
pub proof fn lemma_merged_items_well_formed(
    xs: Seq<(nat, ErrorsView)>,
    ys: Seq<(nat, ErrorsView)>,
    n: nat,
)
    requires
        items_well_formed(xs),
        items_well_formed(ys),
        items_mergeable(xs, ys, n),
        n <= ys.len(),
    ensures
        items_well_formed(merged_items(xs, ys, n)),
    decreases ys, n,
{
    if n > 0 {
        let done = merged_items(xs, ys, (n - 1) as nat);
        let index = ys[n - 1].0;
        let item = ys[n - 1].1;
        lemma_merged_items_well_formed(xs, ys, (n - 1) as nat);
        lemma_find_key(done, index, 0);
        let after = merged_items(xs, ys, n);
        match find_key(done, index, 0) {
            Some(k) => {
                lemma_merged_well_formed(done[k].1, item);
                lemma_merged_not_empty(done[k].1, item);
                assert(after == done.update(k, (index, merged(done[k].1, item))));
                assert forall|i: int, j: int| 0 <= i < j < after.len() implies after[i].0
                    != after[j].0 by {
                    assert(after[i].0 == done[i].0);
                    assert(after[j].0 == done[j].0);
                }
                assert forall|i: int| 0 <= i < after.len() implies !is_empty(
                    (#[trigger] after[i]).1,
                ) && well_formed(after[i].1) by {
                    if i != k {
                        assert(after[i] == done[i]);
                    }
                }
            },
            None => {
                assert(after == done.push((index, item)));
                assert forall|i: int, j: int| 0 <= i < j < after.len() implies after[i].0
                    != after[j].0 by {
                    if j < done.len() {
                        assert(after[i] == done[i]);
                        assert(after[j] == done[j]);
                    } else {
                        assert(after[i] == done[i]);
                    }
                }
                assert forall|i: int| 0 <= i < after.len() implies !is_empty(
                    (#[trigger] after[i]).1,
                ) && well_formed(after[i].1) by {
                    if i < done.len() {
                        assert(after[i] == done[i]);
                    } else {
                        assert(after[i] == ys[n - 1]);
                    }
                }
            },
        }
    }
}

/// Reporting a well-formed error for a field keeps the errors of the fields well formed.
pub proof fn lemma_with_error_properties(
    properties: Seq<(Seq<char>, Seq<ErrorView>)>,
    key: Seq<char>,
    error: ErrorView,
)
    requires
        properties_well_formed(properties),
        error_well_formed(error),
    ensures
        properties_well_formed(with_error(properties, key, error)),
{
    lemma_find_key(properties, key, 0);
    let after = with_error(properties, key, error);
    match find_key(properties, key, 0) {
        Some(k) => {
            lemma_lists_well_formed(properties[k].1, seq![error]);
            assert(properties[k].1.push(error) =~= properties[k].1 + seq![error]);
            assert forall|i: int| 0 <= i < after.len() implies (#[trigger] after[i]).1.len() > 0
                && list_well_formed(after[i].1) by {
                if i != k {
                    assert(after[i] == properties[i]);
                }
            }
        },
        None => {
            assert forall|i: int| 0 <= i < after.len() implies (#[trigger] after[i]).1.len() > 0
                && list_well_formed(after[i].1) by {
                if i < properties.len() {
                    assert(after[i] == properties[i]);
                }
            }
        },
    }
}

/// Reporting a list of well-formed errors for a field keeps the errors of the fields well formed.
pub proof fn lemma_with_errors_properties(
    properties: Seq<(Seq<char>, Seq<ErrorView>)>,
    key: Seq<char>,
    errors: Seq<ErrorView>,
)
    requires
        properties_well_formed(properties),
        list_well_formed(errors),
    ensures
        properties_well_formed(with_errors(properties, key, errors)),
{
    lemma_find_key(properties, key, 0);
    let after = with_errors(properties, key, errors);
    if errors.len() > 0 {
        match find_key(properties, key, 0) {
            Some(k) => {
                lemma_lists_well_formed(properties[k].1, errors);
                assert forall|i: int| 0 <= i < after.len() implies (#[trigger] after[i]).1.len()
                    > 0 && list_well_formed(after[i].1) by {
                    if i != k {
                        assert(after[i] == properties[i]);
                    }
                }
            },
            None => {
                assert forall|i: int| 0 <= i < after.len() implies (#[trigger] after[i]).1.len()
                    > 0 && list_well_formed(after[i].1) by {
                    if i < properties.len() {
                        assert(after[i] == properties[i]);
                    }
                }
            },
        }
    }
}

/// Taking the errors of a field out keeps the errors of the fields well formed.
pub proof fn lemma_without_key_properties(
    properties: Seq<(Seq<char>, Seq<ErrorView>)>,
    key: Seq<char>,
)
    requires
        properties_well_formed(properties),
    ensures
        properties_well_formed(without_key(properties, key)),
{
    lemma_find_key(properties, key, 0);
    let after = without_key(properties, key);
    match find_key(properties, key, 0) {
        Some(k) => {
            assert forall|i: int| 0 <= i < after.len() implies (#[trigger] after[i]).1.len() > 0
                && list_well_formed(after[i].1) by {
                if i == k {
                    assert(after[i] == properties[properties.len() - 1]);
                } else {
                    assert(after[i] == properties[i]);
                }
            }
            assert forall|i: int, j: int| 0 <= i < j < after.len() implies after[i].0
                != after[j].0 by {
                let from_i = if i == k { properties.len() - 1 } else { i };
                let from_j = if j == k { properties.len() - 1 } else { j };
                assert(after[i] == properties[from_i]);
                assert(after[j] == properties[from_j]);
            }
        },
        None => {},
    }
}

} // verus!
