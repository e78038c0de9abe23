use super::error::{ArrayErrorsView, ErrorView, ErrorsView, ObjectErrorsView};
use super::errors::{find_key, items_mergeable, lemma_find_key, mergeable, merged, merged_items};
use vstd::prelude::*;

verus! {

/// The number of violations that an error stands for: one for a message or a custom text, and
/// for an aggregate those of all that it holds.
pub open spec fn error_leaves(error: ErrorView) -> nat
    decreases error, 0nat,
{
    match error {
        ErrorView::Items(array) => array_leaves(array),
        ErrorView::Properties(object) => object_leaves(object),
        _ => 1,
    }
}

/// The number of violations in the first `n` errors of a list.
pub open spec fn list_leaves(list: Seq<ErrorView>, n: nat) -> nat
    decreases list, n,
{
    if n == 0 || n > list.len() {
        0
    } else {
        list_leaves(list, (n - 1) as nat) + error_leaves(list[n - 1])
    }
}

/// The number of violations in the results of the first `n` elements.
pub open spec fn items_leaves(items: Seq<(nat, ErrorsView)>, n: nat) -> nat
    decreases items, n,
{
    if n == 0 || n > items.len() {
        0
    } else {
        items_leaves(items, (n - 1) as nat) + leaves(items[n - 1].1)
    }
}

/// The number of violations in the lists of the first `n` fields.
pub open spec fn properties_leaves(properties: Seq<(Seq<char>, Seq<ErrorView>)>, n: nat) -> nat
    decreases properties, n,
{
    if n == 0 || n > properties.len() {
        0
    } else {
        properties_leaves(properties, (n - 1) as nat) + list_leaves(
            properties[n - 1].1,
            properties[n - 1].1.len(),
        )
    }
}

/// The number of violations in the errors of a sequence.
pub open spec fn array_leaves(array: ArrayErrorsView) -> nat
    decreases array, 0nat,
{
    list_leaves(array.errors, array.errors.len()) + items_leaves(array.items, array.items.len())
}

/// The number of violations in the errors of a struct.
pub open spec fn object_leaves(object: ObjectErrorsView) -> nat
    decreases object, 0nat,
{
    list_leaves(object.errors, object.errors.len()) + properties_leaves(
        object.properties,
        object.properties.len(),
    )
}

/// The number of violations in a validation result.
pub open spec fn leaves(errors: ErrorsView) -> nat
    decreases errors, 0nat,
{
    match errors {
        ErrorsView::Array(array) => array_leaves(array),
        ErrorsView::Object(object) => object_leaves(object),
        ErrorsView::NewType(list) => list_leaves(list, list.len()),
    }
}

/// The violations of the first `n` errors do not depend on what follows them in the list.
proof fn lemma_list_leaves_prefix(first: Seq<ErrorView>, second: Seq<ErrorView>, n: nat)
    requires
        n <= first.len(),
    ensures
        list_leaves(first + second, n) == list_leaves(first, n),
    decreases n,
{
    if n > 0 {
        lemma_list_leaves_prefix(first, second, (n - 1) as nat);
        assert((first + second)[n - 1] == first[n - 1]);
    }
}

/// Two lists, one after the other, hold the violations of both.
pub proof fn lemma_list_leaves_concat(first: Seq<ErrorView>, second: Seq<ErrorView>, n: nat)
    requires
        n <= second.len(),
    ensures
        list_leaves(first + second, first.len() + n) == list_leaves(first, first.len())
            + list_leaves(second, n),
    decreases n,
{
    if n == 0 {
        lemma_list_leaves_prefix(first, second, first.len());
    } else {
        lemma_list_leaves_concat(first, second, (n - 1) as nat);
        assert((first + second)[first.len() + n - 1] == second[n - 1]);
    }
}

/// The violations of the first `n` elements do not depend on the entries from `n` on.
proof fn lemma_items_leaves_same(
    first: Seq<(nat, ErrorsView)>,
    second: Seq<(nat, ErrorsView)>,
    n: nat,
)
    requires
        n <= first.len(),
        n <= second.len(),
        forall|i: int| 0 <= i < n ==> first[i].1 == second[i].1,
    ensures
        items_leaves(first, n) == items_leaves(second, n),
    decreases n,
{
    if n > 0 {
        lemma_items_leaves_same(first, second, (n - 1) as nat);
    }
}

/// An entry that is added brings its violations.
proof fn lemma_items_leaves_push(items: Seq<(nat, ErrorsView)>, entry: (nat, ErrorsView))
    ensures
        items_leaves(items.push(entry), items.len() + 1) == items_leaves(items, items.len())
            + leaves(entry.1),
{
    lemma_items_leaves_same(items.push(entry), items, items.len());
}

/// An entry that is replaced takes its violations away and brings those of what replaces it.
proof fn lemma_items_leaves_update(
    items: Seq<(nat, ErrorsView)>,
    k: int,
    entry: (nat, ErrorsView),
    n: nat,
)
    requires
        0 <= k < items.len(),
        n <= items.len(),
    ensures
        items_leaves(items.update(k, entry), n) + (if k < n {
            leaves(items[k].1)
        } else {
            0
        }) == items_leaves(items, n) + (if k < n {
            leaves(entry.1)
        } else {
            0
        }),
    decreases n,
{
    if n > 0 {
        lemma_items_leaves_update(items, k, entry, (n - 1) as nat);
    }
}

/// A merge drops nothing and makes nothing up: what it gives holds as many violations as the
/// two results that it merges hold together.
pub proof fn lemma_merged_leaves(a: ErrorsView, b: ErrorsView)
    requires
        mergeable(a, b),
    ensures
        leaves(merged(a, b)) == leaves(a) + leaves(b),
    decreases b, 0nat,
{
    match (a, b) {
        (ErrorsView::Array(x), ErrorsView::Array(y)) => {
            lemma_list_leaves_concat(x.errors, y.errors, y.errors.len());
            lemma_merged_items_leaves(x.items, y.items, y.items.len());
        },
        (ErrorsView::Array(x), ErrorsView::NewType(list)) => {
            lemma_list_leaves_concat(x.errors, list, list.len());
        },
        (ErrorsView::NewType(list), ErrorsView::Array(y)) => {
            lemma_list_leaves_concat(list, y.errors, y.errors.len());
        },
        (ErrorsView::NewType(x), ErrorsView::NewType(y)) => {
            lemma_list_leaves_concat(x, y, y.len());
        },
        _ => {},
    }
}

/// Merging element errors drops nothing and makes nothing up.
pub proof fn lemma_merged_items_leaves(
    xs: Seq<(nat, ErrorsView)>,
    ys: Seq<(nat, ErrorsView)>,
    n: nat,
)
    requires
        items_mergeable(xs, ys, n),
        n <= ys.len(),
    ensures
        items_leaves(merged_items(xs, ys, n), merged_items(xs, ys, n).len()) == items_leaves(
            xs,
            xs.len(),
        ) + items_leaves(ys, n),
    decreases ys, n,
{
    if n > 0 {
        lemma_merged_items_leaves(xs, ys, (n - 1) as nat);
        let done = merged_items(xs, ys, (n - 1) as nat);
        let index = ys[n - 1].0;
        let item = ys[n - 1].1;
        lemma_find_key(done, index, 0);
        match find_key(done, index, 0) {
            Some(k) => {
                lemma_merged_leaves(done[k].1, item);
                lemma_items_leaves_update(
                    done,
                    k,
                    (index, merged(done[k].1, item)),
                    done.len(),
                );
            },
            None => {
                lemma_items_leaves_push(done, (index, item));
            },
        }
    }
}

} // verus!
