use super::error::{errors_view, items_view, Errors, ErrorsView};
use super::errors::{
    find_key, items_mergeable, lemma_find_key, mergeable, merged, merged_items, position,
};
use super::well_formed::well_formed;
use vstd::prelude::*;

verus! {

/// Why two results cannot be merged.
#[derive(Clone, Copy, Debug, PartialEq, Eq, Structural)]
pub enum MergeFault {
    /// An object result was to be merged into an array result: the two shapes never describe
    /// the same value, so the caller brought together what does not belong together.
    Conflict,
    /// A merge on the side of an object result, which is not supported yet: something was to be
    /// merged into an object result, or an object result into a bare list.
    NotSupported,
}

/// The first fault that merging `b` into `a` meets, in the order in which the merge proceeds.
pub open spec fn merge_fault(a: ErrorsView, b: ErrorsView) -> Option<MergeFault>
    decreases b, 0nat,
{
    match (a, b) {
        (ErrorsView::Object(_), _) => Some(MergeFault::NotSupported),
        (ErrorsView::NewType(_), ErrorsView::Object(_)) => Some(MergeFault::NotSupported),
        (ErrorsView::Array(_), ErrorsView::Object(_)) => Some(MergeFault::Conflict),
        (ErrorsView::Array(x), ErrorsView::Array(y)) => items_fault(
            x.items,
            y.items,
            y.items.len(),
        ),
        _ => None,
    }
}

/// The first fault that merging the first `n` entries of `ys` into `xs` meets.
pub open spec fn items_fault(
    xs: Seq<(nat, ErrorsView)>,
    ys: Seq<(nat, ErrorsView)>,
    n: nat,
) -> Option<MergeFault>
    decreases ys, n,
{
    if n == 0 || n > ys.len() {
        None
    } else {
        match items_fault(xs, ys, (n - 1) as nat) {
            Some(fault) => Some(fault),
            None => {
                let done = merged_items(xs, ys, (n - 1) as nat);
                match find_key(done, ys[n - 1].0, 0) {
                    Some(k) => merge_fault(done[k].1, ys[n - 1].1),
                    None => None,
                }
            },
        }
    }
}

/// Two results can be merged exactly where merging them meets no fault.
pub proof fn lemma_merge_fault(a: ErrorsView, b: ErrorsView)
    ensures
        merge_fault(a, b) is None <==> mergeable(a, b),
    decreases b, 0nat,
{
    match (a, b) {
        (ErrorsView::Array(x), ErrorsView::Array(y)) => {
            lemma_items_fault(x.items, y.items, y.items.len());
        },
        _ => {},
    }
}

/// Element results can be merged exactly where merging them meets no fault.
pub proof fn lemma_items_fault(xs: Seq<(nat, ErrorsView)>, ys: Seq<(nat, ErrorsView)>, n: nat)
    ensures
        items_fault(xs, ys, n) is None <==> items_mergeable(xs, ys, n),
    decreases ys, n,
{
    if n == 0 || n > ys.len() {
    } else {
        lemma_items_fault(xs, ys, (n - 1) as nat);
        let done = merged_items(xs, ys, (n - 1) as nat);
        match find_key(done, ys[n - 1].0, 0) {
            Some(k) => {
                lemma_merge_fault(done[k].1, ys[n - 1].1);
            },
            None => {},
        }
    }
}

/// The first fault that merging the entries of `others` into `items` meets.
fn items_fault_of(items: &Vec<(usize, Errors)>, others: &Vec<(usize, Errors)>) -> (fault: Option<
    MergeFault,
>)
    ensures
        fault == items_fault(items_view(*items), items_view(*others), others@.len() as nat),
    decreases others, 0nat,
{
    let ghost xs = items_view(*items);
    let ghost ys = items_view(*others);
    let mut done: Vec<(usize, Errors)> = Vec::new();
    let mut i: usize = 0;
    while i < items.len()
        invariant
            i <= items@.len(),
            done@.len() == i,
            forall|k: int|
                0 <= k < i ==> (#[trigger] done@[k]).0 == items@[k].0 && done@[k].1@
                    == items@[k].1@,
        decreases items@.len() - i,
    {
        done.push((items[i].0, items[i].1.duplicate()));
        i = i + 1;
    }
    proof {
        assert(items_view(done) =~= merged_items(xs, ys, 0));
    }
    let mut n: usize = 0;
    while n < others.len()
        invariant
            n <= others@.len(),
            xs == items_view(*items),
            ys == items_view(*others),
            items_view(done) == merged_items(xs, ys, n as nat),
            items_fault(xs, ys, n as nat) is None,
        decreases others@.len() - n,
    {
        proof {
            assert(decreases_to!(*others => others@[n as int]));
            assert(ys[n as int] == (others@[n as int].0 as nat, others@[n as int].1@));
        }
        let index: usize = others[n].0;
        match position(&done, index) {
            Some(k) => {
                proof {
                    lemma_find_key(items_view(done), index as nat, 0);
                }
                match done[k].1.merge_fault_of(&others[n].1) {
                    Some(fault) => {
                        proof {
                            lemma_items_fault_stays(xs, ys, (n + 1) as nat, others@.len() as nat);
                        }
                        return Some(fault);
                    },
                    None => {
                        let ghost before = done;
                        proof {
                            lemma_merge_fault(done@[k as int].1@, others@[n as int].1@);
                        }
                        done[k].1.merge(others[n].1.duplicate());
                        proof {
                            assert(items_view(done) =~= items_view(before).update(
                                k as int,
                                (index as nat, done@[k as int].1@),
                            ));
                        }
                    },
                }
            },
            None => {
                let ghost before = done;
                let copy: Errors = others[n].1.duplicate();
                done.push((index, copy));
                proof {
                    assert(items_view(done) =~= items_view(before).push((index as nat, copy@)));
                }
            },
        }
        n = n + 1;
    }
    None
}

/// A fault that was met among the first `m` entries is met among the first `n`, for `n` from
/// `m` on, and is the same.
proof fn lemma_items_fault_stays(
    xs: Seq<(nat, ErrorsView)>,
    ys: Seq<(nat, ErrorsView)>,
    m: nat,
    n: nat,
)
    requires
        items_fault(xs, ys, m) is Some,
        m <= n <= ys.len(),
    ensures
        items_fault(xs, ys, n) == items_fault(xs, ys, m),
    decreases n,
{
    if m < n {
        lemma_items_fault_stays(xs, ys, m, (n - 1) as nat);
    }
}

impl Errors {
    /// The first fault that merging `other` into `self` would meet; `None` where the two can be
    /// merged.
    pub fn merge_fault_of(&self, other: &Errors) -> (fault: Option<MergeFault>)
        ensures
            fault == merge_fault(self@, other@),
            fault is None <==> mergeable(self@, other@),
        decreases other, 1nat,
    {
        proof {
            lemma_merge_fault(self@, other@);
        }
        match (self, other) {
            (Errors::Object(_), _) => Some(MergeFault::NotSupported),
            (Errors::NewType(_), Errors::Object(_)) => Some(MergeFault::NotSupported),
            (Errors::Array(_), Errors::Object(_)) => Some(MergeFault::Conflict),
            (Errors::Array(a), Errors::Array(b)) => items_fault_of(&a.items, &b.items),
            _ => None,
        }
    }

    /// Merges `other` into `self` where the two can be merged, and otherwise leaves `self` as it
    /// is and says why they cannot.
    pub fn try_merge(&mut self, other: Errors) -> (done: Result<(), MergeFault>)
        ensures
            match merge_fault(old(self)@, other@) {
                None => done is Ok && final(self)@ == merged(old(self)@, other@),
                Some(fault) => done == Err::<(), MergeFault>(fault) && final(self)@ == old(self)@,
            },
            well_formed(old(self)@) && well_formed(other@) ==> well_formed(final(self)@),
    {
        match self.merge_fault_of(&other) {
            Some(fault) => Err(fault),
            None => {
                self.merge(other);
                Ok(())
            },
        }
    }
}

} // verus!
