use super::error::{
    errors_view, items_view, vec_errors_view, ArrayErrors, ArrayErrorsView, Error, ErrorView,
    Errors, ErrorsView, VecErrors,
};
use super::well_formed::{lemma_merged_well_formed, well_formed};
use vstd::pervasive::unreached;
use vstd::prelude::*;

verus! {

/// The first position at or after `start` whose entry has the key `key`.
pub open spec fn find_key<K, V>(entries: Seq<(K, V)>, key: K, start: int) -> Option<int>
    decreases entries.len() - start,
{
    if start < 0 || start >= entries.len() {
        None
    } else if entries[start].0 == key {
        Some(start)
    } else {
        find_key(entries, key, start + 1)
    }
}

/// No key occurs twice.
pub open spec fn distinct_keys<K, V>(entries: Seq<(K, V)>) -> bool {
    forall|i: int, j: int| 0 <= i < j < entries.len() ==> entries[i].0 != entries[j].0
}

/// Where a search that starts at `start` finds an entry, the entry has the key that was looked
/// for, and no entry between `start` and it has. Where it finds none, no entry from `start` on
/// has the key.
pub proof fn lemma_find_key<K, V>(entries: Seq<(K, V)>, key: K, start: int)
    requires
        0 <= start,
    ensures
        match find_key(entries, key, start) {
            Some(k) => start <= k < entries.len() && entries[k].0 == key && forall|j: int|
                start <= j < k ==> entries[j].0 != key,
            None => forall|j: int| start <= j < entries.len() ==> entries[j].0 != key,
        },
    decreases entries.len() - start,
{
    if start < entries.len() && entries[start].0 != key {
        lemma_find_key(entries, key, start + 1);
    }
}

/// What merging `b` into `a` gives, for two results that describe the same value.
///
/// Lists are concatenated, those of `a` first. Element errors are united by index: an index that
/// both hold has its two results merged in turn, and an index that only `b` holds is added after
/// those of `a`. A list merged with an array result becomes the array's own errors.
pub open spec fn merged(a: ErrorsView, b: ErrorsView) -> ErrorsView
    decreases b, 0nat,
{
    match (a, b) {
        (ErrorsView::Array(x), ErrorsView::Array(y)) => ErrorsView::Array(
            ArrayErrorsView {
                errors: x.errors + y.errors,
                items: merged_items(x.items, y.items, y.items.len()),
            },
        ),
        (ErrorsView::Array(x), ErrorsView::NewType(list)) => ErrorsView::Array(
            ArrayErrorsView { errors: x.errors + list, items: x.items },
        ),
        (ErrorsView::NewType(list), ErrorsView::Array(y)) => ErrorsView::Array(
            ArrayErrorsView { errors: list + y.errors, items: y.items },
        ),
        (ErrorsView::NewType(x), ErrorsView::NewType(y)) => ErrorsView::NewType(x + y),
        _ => a,
    }
}

/// The element errors `xs` after the first `n` entries of `ys` were merged into them, one after
/// another.
pub open spec fn merged_items(
    xs: Seq<(nat, ErrorsView)>,
    ys: Seq<(nat, ErrorsView)>,
    n: nat,
) -> Seq<(nat, ErrorsView)>
    decreases ys, n,
{
    if n == 0 || n > ys.len() {
        xs
    } else {
        let done = merged_items(xs, ys, (n - 1) as nat);
        let index = ys[n - 1].0;
        let item = ys[n - 1].1;
        match find_key(done, index, 0) {
            Some(k) => done.update(k, (index, merged(done[k].1, item))),
            None => done.push((index, item)),
        }
    }
}

/// Whether `b` can be merged into `a`: neither is an object result, and the same holds of every
/// pair of element results that the merge brings together.
pub open spec fn mergeable(a: ErrorsView, b: ErrorsView) -> bool
    decreases b, 0nat,
{
    match (a, b) {
        (ErrorsView::Array(x), ErrorsView::Array(y)) => items_mergeable(
            x.items,
            y.items,
            y.items.len(),
        ),
        (ErrorsView::Array(_), ErrorsView::NewType(_)) => true,
        (ErrorsView::NewType(_), ErrorsView::Array(_)) => true,
        (ErrorsView::NewType(_), ErrorsView::NewType(_)) => true,
        _ => false,
    }
}

/// Whether the first `n` entries of `ys` can be merged into `xs`, one after another.
pub open spec fn items_mergeable(
    xs: Seq<(nat, ErrorsView)>,
    ys: Seq<(nat, ErrorsView)>,
    n: nat,
) -> bool
    decreases ys, n,
{
    if n == 0 || n > ys.len() {
        true
    } else {
        let done = merged_items(xs, ys, (n - 1) as nat);
        &&& items_mergeable(xs, ys, (n - 1) as nat)
        &&& (find_key(done, ys[n - 1].0, 0) matches Some(k) ==> mergeable(done[k].1, ys[n - 1].1))
    }
}

/// Whether a result holds no error at all.
pub open spec fn is_empty(errors: ErrorsView) -> bool {
    match errors {
        ErrorsView::Array(array) => array.errors.len() == 0 && array.items.len() == 0,
        ErrorsView::Object(object) => object.errors.len() == 0 && object.properties.len() == 0,
        ErrorsView::NewType(list) => list.len() == 0,
    }
}

/// The errors that a result adds to the list of the field that it was found on: the errors of a
/// bare list as they are, an aggregate as one error.
pub open spec fn slot(errors: ErrorsView) -> Seq<ErrorView> {
    match errors {
        ErrorsView::Array(array) => seq![ErrorView::Items(array)],
        ErrorsView::Object(object) => seq![ErrorView::Properties(object)],
        ErrorsView::NewType(list) => list,
    }
}

/// The position of the first entry keyed by `index`.
pub fn position(items: &Vec<(usize, Errors)>, index: usize) -> (found: Option<usize>)
    ensures
        match found {
            Some(k) => find_key(items_view(*items), index as nat, 0) == Some(k as int) && k
                < items@.len(),
            None => find_key(items_view(*items), index as nat, 0) is None,
        },
{
    let ghost view = items_view(*items);
    let mut k: usize = 0;
    while k < items.len()
        invariant
            k <= items@.len(),
            view == items_view(*items),
            find_key(view, index as nat, 0) == find_key(view, index as nat, k as int),
        decreases items@.len() - k,
    {
        if items[k].0 == index {
            return Some(k);
        }
        k = k + 1;
    }
    None
}

/// Merges the entries of `others` into `items`, one after another.
fn merge_items(items: &mut Vec<(usize, Errors)>, others: Vec<(usize, Errors)>)
    requires
        items_mergeable(items_view(*old(items)), items_view(others), others@.len() as nat),
    ensures
        items_view(*final(items)) == merged_items(
            items_view(*old(items)),
            items_view(others),
            others@.len() as nat,
        ),
    decreases others,
{
    let ghost xs = items_view(*items);
    let ghost ys = items_view(others);
    let ghost entries = others@;
    for entry in it: others
        invariant
            it.seq() == entries,
            entries == others@,
            ys == items_view(others),
            ys.len() == entries.len(),
            items_mergeable(xs, ys, ys.len()),
            items_view(*items) == merged_items(xs, ys, it.index() as nat),
    {
        let ghost i = it.index();
        let (index, item) = entry;
        proof {
            assert(ys[i] == (index as nat, errors_view(item)));
            lemma_items_mergeable_prefix(xs, ys, ys.len(), (i + 1) as nat);
        }
        match position(items, index) {
            Some(k) => {
                let ghost before = *items;
                proof {
                    lemma_find_key(items_view(before), index as nat, 0);
                }
                items[k].1.merge(item);
                proof {
                    assert(items_view(*items) =~= items_view(before).update(
                        k as int,
                        (index as nat, errors_view(items@[k as int].1)),
                    ));
                }
            },
            None => {
                let ghost before = *items;
                items.push((index, item));
                proof {
                    assert(items_view(*items) =~= items_view(before).push(
                        (index as nat, errors_view(item)),
                    ));
                }
            },
        }
    }
}

/// What can be merged as a whole can be merged up to any entry.
proof fn lemma_items_mergeable_prefix(
    xs: Seq<(nat, ErrorsView)>,
    ys: Seq<(nat, ErrorsView)>,
    n: nat,
    m: nat,
)
    requires
        items_mergeable(xs, ys, n),
        m <= n <= ys.len(),
    ensures
        items_mergeable(xs, ys, m),
    decreases n,
{
    if m < n {
        lemma_items_mergeable_prefix(xs, ys, (n - 1) as nat, m);
    }
}

impl Errors {
    /// Whether the result holds no error at all.
    pub fn is_empty(&self) -> (empty: bool)
        ensures
            empty == is_empty(self@),
    {
        match self {
            Errors::Array(array) => array.errors.len() == 0 && array.items.len() == 0,
            Errors::Object(object) => object.errors.len() == 0 && object.properties.entries.len()
                == 0,
            Errors::NewType(list) => list.len() == 0,
        }
    }

    /// The errors that the result adds to the list of the field that it was found on.
    pub fn into_slot(self) -> (list: VecErrors)
        ensures
            vec_errors_view(list) == slot(self@),
    {
        match self {
            Errors::Array(array) => {
                let mut list: VecErrors = Vec::new();
                list.push(Error::Items(array));
                proof {
                    assert(vec_errors_view(list) =~= slot(self@));
                }
                list
            },
            Errors::Object(object) => {
                let mut list: VecErrors = Vec::new();
                list.push(Error::Properties(object));
                proof {
                    assert(vec_errors_view(list) =~= slot(self@));
                }
                list
            },
            Errors::NewType(list) => list,
        }
    }

    /// Merges `other` into `self`, where both describe the same value.
    ///
    /// Merging with an object result is not supported, on either side and at any depth.
    pub fn merge(&mut self, other: Errors)
        requires
            mergeable(old(self)@, other@),
        ensures
            final(self)@ == merged(old(self)@, other@),
            well_formed(old(self)@) && well_formed(other@) ==> well_formed(final(self)@),
        decreases other,
    {
        proof {
            if well_formed(self@) && well_formed(other@) {
                lemma_merged_well_formed(self@, other@);
            }
        }
        match self {
            Errors::Array(a) => match other {
                Errors::Array(b) => {
                    let mut b = b;
                    let ghost before = a.errors;
                    let ghost added = b.errors;
                    a.errors.append(&mut b.errors);
                    proof {
                        assert(vec_errors_view(a.errors) =~= vec_errors_view(before)
                            + vec_errors_view(added));
                    }
                    merge_items(&mut a.items, b.items);
                },
                Errors::Object(_) => {
                    unreached::<()>();
                },
                Errors::NewType(list) => {
                    let mut list = list;
                    let ghost before = a.errors;
                    let ghost added = list;
                    a.errors.append(&mut list);
                    proof {
                        assert(vec_errors_view(a.errors) =~= vec_errors_view(before)
                            + vec_errors_view(added));
                    }
                },
            },
            Errors::NewType(a) => match other {
                Errors::Array(b) => {
                    let mut b = b;
                    let ghost before = *a;
                    let ghost added = b.errors;
                    let mut errors: VecErrors = Vec::new();
                    errors.append(a);
                    errors.append(&mut b.errors);
                    proof {
                        assert(vec_errors_view(errors) =~= vec_errors_view(before)
                            + vec_errors_view(added));
                    }
                    *self = Errors::Array(ArrayErrors { errors, items: b.items });
                },
                Errors::Object(_) => {
                    unreached::<()>();
                },
                Errors::NewType(b) => {
                    let mut b = b;
                    let ghost before = *a;
                    let ghost added = b;
                    a.append(&mut b);
                    proof {
                        assert(vec_errors_view(*a) =~= vec_errors_view(before) + vec_errors_view(
                            added,
                        ));
                    }
                },
            },
            Errors::Object(_) => {
                unreached::<()>();
            },
        }
    }
}

/// Merging one bare list into another gives a bare list: the errors of the first, in their
/// order, followed by those of the second, in theirs.
pub proof fn lemma_merge_lists(first: Seq<ErrorView>, second: Seq<ErrorView>)
    ensures
        mergeable(ErrorsView::NewType(first), ErrorsView::NewType(second)),
        merged(ErrorsView::NewType(first), ErrorsView::NewType(second)) == ErrorsView::NewType(
            first + second,
        ),
{
}

/// Merging with an empty list, from either side, gives the other result back: no entry is added
/// and the shape stays. Object results are left out, as no merge with them is supported.
pub proof fn lemma_merge_empty_list(errors: ErrorsView)
    requires
        !(errors is Object),
    ensures
        mergeable(errors, ErrorsView::NewType(Seq::empty())),
        merged(errors, ErrorsView::NewType(Seq::empty())) == errors,
        mergeable(ErrorsView::NewType(Seq::empty()), errors),
        merged(ErrorsView::NewType(Seq::empty()), errors) == errors,
{
    match errors {
        ErrorsView::Array(array) => {
            assert(array.errors + Seq::<ErrorView>::empty() =~= array.errors);
            assert(Seq::<ErrorView>::empty() + array.errors =~= array.errors);
        },
        ErrorsView::NewType(list) => {
            assert(list + Seq::<ErrorView>::empty() =~= list);
            assert(Seq::<ErrorView>::empty() + list =~= list);
        },
        ErrorsView::Object(_) => {},
    }
}

/// Merging a bare list into an array result adds the list to the errors of the array itself and
/// leaves the errors of the elements as they are.
pub proof fn lemma_merge_list_into_array(array: ArrayErrorsView, list: Seq<ErrorView>)
    ensures
        mergeable(ErrorsView::Array(array), ErrorsView::NewType(list)),
        merged(ErrorsView::Array(array), ErrorsView::NewType(list)) == ErrorsView::Array(
            ArrayErrorsView { errors: array.errors + list, items: array.items },
        ),
{
}

/// An array result that holds the errors of one element and none of its own, merged with a list
/// of one error, holds that error as its own and the element as before.
pub proof fn lemma_merge_error_into_element_array(index: nat, element: ErrorsView, error: ErrorView)
    ensures
        merged(
            ErrorsView::Array(
                ArrayErrorsView { errors: Seq::empty(), items: seq![(index, element)] },
            ),
            ErrorsView::NewType(seq![error]),
        ) == ErrorsView::Array(
            ArrayErrorsView { errors: seq![error], items: seq![(index, element)] },
        ),
{
    assert(Seq::<ErrorView>::empty() + seq![error] =~= seq![error]);
}

/// Merging an array result into a bare list gives an array result: the list followed by the
/// array's own errors, and the errors of the elements as they are.
pub proof fn lemma_merge_array_into_list(list: Seq<ErrorView>, array: ArrayErrorsView)
    ensures
        mergeable(ErrorsView::NewType(list), ErrorsView::Array(array)),
        merged(ErrorsView::NewType(list), ErrorsView::Array(array)) == ErrorsView::Array(
            ArrayErrorsView { errors: list + array.errors, items: array.items },
        ),
{
}

} // verus!
