use super::error::ErrorsView;
use super::errors::{distinct_keys, find_key, lemma_find_key, merged, merged_items};
use vstd::prelude::*;

verus! {

/// The entries among the first `n` of `ys` whose index no entry of `xs` has, in their order.
pub open spec fn added_items(
    xs: Seq<(nat, ErrorsView)>,
    ys: Seq<(nat, ErrorsView)>,
    n: nat,
) -> Seq<(nat, ErrorsView)>
    decreases n,
{
    if n == 0 || n > ys.len() {
        Seq::empty()
    } else if find_key(xs, ys[n - 1].0, 0) is None {
        added_items(xs, ys, (n - 1) as nat).push(ys[n - 1])
    } else {
        added_items(xs, ys, (n - 1) as nat)
    }
}

/// The entries of `xs`, each merged with the entry of the same index among the first `n` of
/// `ys` where there is one, and as it is where there is none.
pub open spec fn kept_items(
    xs: Seq<(nat, ErrorsView)>,
    ys: Seq<(nat, ErrorsView)>,
    n: nat,
) -> Seq<(nat, ErrorsView)> {
    Seq::new(
        xs.len(),
        |k: int|
            match find_key(ys.take(n as int), xs[k].0, 0) {
                Some(j) => (xs[k].0, merged(xs[k].1, ys[j].1)),
                None => xs[k],
            },
    )
}

/// The union of two sets of element errors by index: the entries of `xs` in their order, each
/// merged with its partner in `ys` if it has one, followed by the entries of `ys` that have no
/// partner in `xs`, in their order and as they are.
pub open spec fn united_items(
    xs: Seq<(nat, ErrorsView)>,
    ys: Seq<(nat, ErrorsView)>,
    n: nat,
) -> Seq<(nat, ErrorsView)> {
    kept_items(xs, ys, n) + added_items(xs, ys, n)
}

/// Every added entry is one of the first `n` entries of `ys`, and no entry of `xs` has its index.
proof fn lemma_added_items(xs: Seq<(nat, ErrorsView)>, ys: Seq<(nat, ErrorsView)>, n: nat)
    requires
        n <= ys.len(),
    ensures
        forall|p: int|
            0 <= p < added_items(xs, ys, n).len() ==> exists|j: int|
                0 <= j < n && #[trigger] ys[j] == (#[trigger] added_items(xs, ys, n)[p])
                    && find_key(xs, ys[j].0, 0) is None,
    decreases n,
{
    if n > 0 {
        lemma_added_items(xs, ys, (n - 1) as nat);
        let before = added_items(xs, ys, (n - 1) as nat);
        let after = added_items(xs, ys, n);
        assert forall|p: int| 0 <= p < after.len() implies exists|j: int|
            0 <= j < n && #[trigger] ys[j] == (#[trigger] after[p]) && find_key(xs, ys[j].0, 0)
                is None by {
            if p < before.len() {
                assert(after[p] == before[p]);
                let j = choose|j: int|
                    0 <= j < n - 1 && #[trigger] ys[j] == before[p] && find_key(xs, ys[j].0, 0)
                        is None;
                assert(ys[j] == after[p]);
            } else {
                assert(ys[n - 1] == after[p]);
            }
        }
    }
}

/// Merging element errors unites them by index: an index that both hold has its two results
/// merged, an index that only one holds keeps its result as it is, the entries of the first
/// stay in their places, and those that only the second holds follow in their order.
pub proof fn lemma_merged_items_unite(
    xs: Seq<(nat, ErrorsView)>,
    ys: Seq<(nat, ErrorsView)>,
    n: nat,
)
    requires
        distinct_keys(xs),
        distinct_keys(ys),
        n <= ys.len(),
    ensures
        merged_items(xs, ys, n) == united_items(xs, ys, n),
    decreases n,
{
    if n == 0 {
        assert forall|k: int| 0 <= k < xs.len() implies kept_items(xs, ys, 0)[k] == xs[k] by {
            lemma_find_key(ys.take(0), xs[k].0, 0);
        }
        assert(merged_items(xs, ys, 0) =~= united_items(xs, ys, 0));
    } else {
        lemma_merged_items_unite(xs, ys, (n - 1) as nat);
        lemma_added_items(xs, ys, (n - 1) as nat);
        let done = merged_items(xs, ys, (n - 1) as nat);
        let kept_before = kept_items(xs, ys, (n - 1) as nat);
        let added_before = added_items(xs, ys, (n - 1) as nat);
        let index = ys[n - 1].0;
        let item = ys[n - 1].1;
        let after = merged_items(xs, ys, n);
        let kept = kept_items(xs, ys, n);
        lemma_find_key(done, index, 0);
        lemma_find_key(xs, index, 0);
        assert(done == kept_before + added_before);
        // The keys of the kept entries are those of `xs`.
        assert forall|k: int| 0 <= k < xs.len() implies done[k].0 == xs[k].0 by {
            lemma_find_key(ys.take((n - 1) as int), xs[k].0, 0);
            assert(done[k] == kept_before[k]);
        }
        // No added entry has the new index: the indices of `ys` are distinct.
        assert forall|p: int| xs.len() <= p < done.len() implies done[p].0 != index by {
            assert(done[p] == added_before[p - xs.len()]);
            let j = choose|j: int|
                0 <= j < n - 1 && #[trigger] ys[j] == added_before[p - xs.len()] && find_key(
                    xs,
                    ys[j].0,
                    0,
                ) is None;
            assert(ys[j].0 != ys[n - 1].0);
        }
        // How the partners of the kept entries change with the new entry.
        assert forall|k: int| 0 <= k < xs.len() implies kept[k] == (if xs[k].0 == index {
            (index, merged(xs[k].1, item))
        } else {
            kept_before[k]
        }) by {
            lemma_find_key(ys.take(n as int), xs[k].0, 0);
            lemma_find_key(ys.take((n - 1) as int), xs[k].0, 0);
            if xs[k].0 == index {
                assert(ys.take(n as int)[n - 1] == ys[n - 1]);
                match find_key(ys.take(n as int), xs[k].0, 0) {
                    Some(j) => {
                        assert(ys.take(n as int)[j] == ys[j]);
                        assert(j == n - 1);
                    },
                    None => {},
                }
            } else {
                match find_key(ys.take(n as int), xs[k].0, 0) {
                    Some(j) => {
                        assert(ys.take(n as int)[j] == ys[j]);
                        assert(ys.take((n - 1) as int)[j] == ys[j]);
                    },
                    None => {
                        assert forall|j: int| 0 <= j < n - 1 implies (#[trigger] ys.take(
                            (n - 1) as int,
                        )[j]).0 != xs[k].0 by {
                            assert(ys.take(n as int)[j] == ys[j]);
                        }
                    },
                }
                match find_key(ys.take((n - 1) as int), xs[k].0, 0) {
                    Some(j) => {
                        assert(ys.take((n - 1) as int)[j] == ys[j]);
                        assert(ys.take(n as int)[j] == ys[j]);
                    },
                    None => {
                        assert forall|j: int| 0 <= j < n implies (#[trigger] ys.take(
                            n as int,
                        )[j]).0 != xs[k].0 by {
                            if j < n - 1 {
                                assert(ys.take((n - 1) as int)[j] == ys[j]);
                            }
                        }
                    },
                }
            }
        }
        match find_key(done, index, 0) {
            Some(k) => {
                assert(k < xs.len());
                assert(xs[k].0 == index);
                assert(find_key(xs, index, 0) is Some);
                // The entry had no partner before: the indices of `ys` are distinct.
                lemma_find_key(ys.take((n - 1) as int), xs[k].0, 0);
                assert(find_key(ys.take((n - 1) as int), xs[k].0, 0) is None) by {
                    if find_key(ys.take((n - 1) as int), xs[k].0, 0) is Some {
                        let j = find_key(ys.take((n - 1) as int), xs[k].0, 0)->Some_0;
                        assert(ys.take((n - 1) as int)[j] == ys[j]);
                        assert(ys[j].0 != ys[n - 1].0);
                    }
                }
                assert(done[k] == xs[k]);
                assert(after == done.update(k, (index, merged(done[k].1, item))));
                assert forall|i: int| 0 <= i < xs.len() && i != k implies xs[i].0 != index by {
                    if i < k {
                        assert(xs[i].0 != xs[k].0);
                    } else {
                        assert(xs[k].0 != xs[i].0);
                    }
                }
                assert(after =~= united_items(xs, ys, n));
            },
            None => {
                assert forall|i: int| 0 <= i < xs.len() implies xs[i].0 != index by {
                    assert(done[i].0 == xs[i].0);
                }
                assert(find_key(xs, index, 0) is None);
                assert(after == done.push((index, item)));
                assert(after =~= united_items(xs, ys, n));
            },
        }
    }
}

} // verus!
