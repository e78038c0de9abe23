use vstd::prelude::*;

verus! {

/// The similarity of two texts after Jaro and Winkler, as the bit pattern of the `f64` that
/// measures it.
pub uninterp spec fn similarity_bits(unknown: Seq<char>, candidate: Seq<char>) -> u64;

/// The bit pattern of 1.0, the similarity of equal texts.
pub const EQUAL_TEXTS: u64 = 0x3ff0_0000_0000_0000;

/// The bit pattern of 0.8: a candidate is suggested when it is more similar than this.
pub const SIMILAR_ENOUGH: u64 = 0x3fe9_9999_9999_999a;

/// `strsim::jaro_winkler`: the similarity of the two texts, a number between 0.0 and 1.0 that
/// depends on the texts alone. It is handed on as its bit pattern (`f64::to_bits`); among the
/// numbers from 0.0 to 1.0 the larger number has the larger pattern, and no other `f64` has a
/// pattern up to that of 1.0.
#[verifier::external_body]
fn similarity(unknown: &str, candidate: &str) -> (bits: u64)
    ensures
        bits == similarity_bits(unknown@, candidate@),
        bits <= EQUAL_TEXTS,
{
    strsim::jaro_winkler(unknown, candidate).to_bits()
}

/// How similar each candidate is to the unknown text.
pub open spec fn scores(unknown: Seq<char>, candidates: Seq<&str>) -> Seq<u64> {
    Seq::new(candidates.len(), |i: int| similarity_bits(unknown, candidates[i]@))
}

/// The place at which an entry with the score `score` goes into a ranking: behind every entry
/// that scores as high or higher, before the first that scores lower.
pub open spec fn place(order: Seq<int>, all: Seq<u64>, score: u64, from: int) -> int
    decreases order.len() - from,
{
    if from < 0 || from >= order.len() {
        order.len() as int
    } else if all[order[from]] < score {
        from
    } else {
        place(order, all, score, from + 1)
    }
}

/// The positions of the first `n` scores that are above the threshold, the highest score first;
/// among equal scores the earlier position first.
pub open spec fn ranking(all: Seq<u64>, n: nat) -> Seq<int>
    decreases n,
{
    if n == 0 || n > all.len() {
        Seq::empty()
    } else {
        let before = ranking(all, (n - 1) as nat);
        if all[n - 1] > SIMILAR_ENOUGH {
            before.insert(place(before, all, all[n - 1], 0), n - 1)
        } else {
            before
        }
    }
}

/// Where an entry goes into a ranking: every entry before the place scores as high or higher,
/// and the entry at the place, if there is one, scores lower.
pub proof fn lemma_place(order: Seq<int>, all: Seq<u64>, score: u64, from: int)
    requires
        0 <= from <= order.len(),
    ensures
        from <= place(order, all, score, from) <= order.len(),
        forall|k: int| from <= k < place(order, all, score, from) ==> all[order[k]] >= score,
        place(order, all, score, from) < order.len() ==> all[order[place(order, all, score, from)]]
            < score,
    decreases order.len() - from,
{
    if from < order.len() && all[order[from]] >= score {
        lemma_place(order, all, score, from + 1);
    }
}

/// Whether `order` ranks the positions of the first `n` scores: it holds each position whose
/// score is above the threshold once and no other, the scores fall or stay along it, and of two
/// positions with the same score the earlier one comes first.
pub open spec fn ranks(order: Seq<int>, all: Seq<u64>, n: nat) -> bool {
    &&& forall|k: int| 0 <= k < order.len() ==> 0 <= #[trigger] order[k] < n && all[order[k]]
        > SIMILAR_ENOUGH
    &&& forall|i: int| 0 <= i < n && all[i] > SIMILAR_ENOUGH ==> order.contains(i)
    &&& forall|a: int, b: int|
        0 <= a < b < order.len() ==> all[#[trigger] order[a]] > all[#[trigger] order[b]] || (
        all[order[a]] == all[order[b]] && order[a] < order[b])
}

/// The ranking holds the positions of the scores above the threshold, each once, the highest
/// score first, and among equal scores the earlier position first.
pub proof fn lemma_ranking(all: Seq<u64>, n: nat)
    requires
        n <= all.len(),
    ensures
        ranks(ranking(all, n), all, n),
    decreases n,
{
    if n > 0 {
        lemma_ranking(all, (n - 1) as nat);
        let before = ranking(all, (n - 1) as nat);
        let after = ranking(all, n);
        if all[n - 1] > SIMILAR_ENOUGH {
            let at = place(before, all, all[n - 1], 0);
            lemma_place(before, all, all[n - 1], 0);
            assert(after == before.insert(at, n - 1));
            assert forall|k: int| 0 <= k < after.len() implies 0 <= #[trigger] after[k] < n
                && all[after[k]] > SIMILAR_ENOUGH by {
                if k < at {
                    assert(after[k] == before[k]);
                } else if k > at {
                    assert(after[k] == before[k - 1]);
                }
            }
            assert forall|i: int| 0 <= i < n && all[i] > SIMILAR_ENOUGH implies after.contains(
                i,
            ) by {
                if i == n - 1 {
                    assert(after[at] == i);
                } else {
                    assert(before.contains(i));
                    let k = choose|k: int| 0 <= k < before.len() && before[k] == i;
                    if k < at {
                        assert(after[k] == i);
                    } else {
                        assert(after[k + 1] == i);
                    }
                }
            }
            assert forall|a: int, b: int| 0 <= a < b < after.len() implies all[
                #[trigger] after[a]
            ] > all[#[trigger] after[b]] || (all[after[a]] == all[after[b]] && after[a]
                < after[b]) by {
                if b < at {
                    assert(after[a] == before[a] && after[b] == before[b]);
                } else if b == at {
                    assert(after[a] == before[a]);
                    assert(before[a] < n - 1);
                } else if a < at {
                    assert(after[a] == before[a] && after[b] == before[b - 1]);
                } else if a == at {
                    assert(after[b] == before[b - 1]);
                    if b - 1 > at {
                        assert(all[before[at]] > all[before[b - 1]] || all[before[at]]
                            == all[before[b - 1]]);
                    }
                } else {
                    assert(after[a] == before[a - 1] && after[b] == before[b - 1]);
                }
            }
        } else {
            assert(after == before);
            assert forall|k: int| 0 <= k < after.len() implies 0 <= #[trigger] after[k] < n
                && all[after[k]] > SIMILAR_ENOUGH by {}
        }
    }
}

/// The candidates that are similar enough to the unknown text, the most similar first.
pub open spec fn suggestions(unknown: Seq<char>, candidates: Seq<&str>) -> Seq<Seq<char>> {
    let all = scores(unknown, candidates);
    let order = ranking(all, all.len());
    Seq::new(order.len(), |k: int| candidates[order[k]]@)
}

/// The candidates that an unknown name may have been meant to be: those whose similarity to it
/// is above 0.8, the most similar first, and of two that are equally similar the one that was
/// listed first. `None` where no candidate is similar enough.
pub fn did_you_mean<'a>(unknown: &str, candidates: &[&'a str]) -> (found: Option<Vec<&'a str>>)
    ensures
        match found {
            Some(list) => list@.len() > 0 && list@.map_values(|c: &str| c@) == suggestions(
                unknown@,
                candidates@,
            ),
            None => suggestions(unknown@, candidates@).len() == 0,
        },
{
    let ghost all = scores(unknown@, candidates@);
    let mut order: Vec<usize> = Vec::new();
    let mut ranks: Vec<u64> = Vec::new();
    let mut i: usize = 0;
    proof {
        assert(order@.map_values(|k: usize| k as int) =~= ranking(all, 0));
    }
    while i < candidates.len()
        invariant
            i <= candidates@.len(),
            all == scores(unknown@, candidates@),
            order@.len() == ranks@.len(),
            order@.map_values(|k: usize| k as int) == ranking(all, i as nat),
            forall|k: int| 0 <= k < order@.len() ==> (#[trigger] order@[k]) < i,
            forall|k: int|
                0 <= k < order@.len() ==> (#[trigger] ranks@[k]) == all[order@[k] as int],
        decreases candidates@.len() - i,
    {
        let score: u64 = similarity(unknown, candidates[i]);
        if score > SIMILAR_ENOUGH {
            let ghost before = order@.map_values(|k: usize| k as int);
            let mut at: usize = 0;
            while at < ranks.len() && ranks[at] >= score
                invariant
                    at <= ranks@.len(),
                    order@.len() == ranks@.len(),
                    before == order@.map_values(|k: usize| k as int),
                    forall|k: int|
                        0 <= k < order@.len() ==> (#[trigger] ranks@[k]) == all[order@[k] as int],
                    place(before, all, score, 0) == place(before, all, score, at as int),
                decreases ranks@.len() - at,
            {
                at = at + 1;
            }
            order.insert(at, i);
            ranks.insert(at, score);
            proof {
                assert(order@.map_values(|k: usize| k as int) =~= before.insert(
                    at as int,
                    i as int,
                ));
            }
        }
        i = i + 1;
    }
    if order.len() == 0 {
        None
    } else {
        let mut list: Vec<&'a str> = Vec::new();
        let mut k: usize = 0;
        while k < order.len()
            invariant
                k <= order@.len(),
                list@.len() == k,
                forall|j: int| 0 <= j < order@.len() ==> (#[trigger] order@[j]) < candidates@.len(),
                forall|j: int|
                    0 <= j < k ==> (#[trigger] list@[j])@ == candidates@[order@[j] as int]@,
            decreases order@.len() - k,
        {
            list.push(candidates[order[k]]);
            k = k + 1;
        }
        proof {
            assert(list@.map_values(|c: &str| c@) =~= suggestions(unknown@, candidates@));
        }
        Some(list)
    }
}

} // verus!
