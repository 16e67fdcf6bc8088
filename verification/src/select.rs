//! Choosing the most specific of several matching keys.
//!
//! Both the policy and the signature-store configuration are keyed by text,
//! and in both the longest key that matches an image wins. A candidate list
//! holds, for every key in order, its length where the key matches and `None`
//! where it does not.

use vstd::prelude::*;

verus! {

/// Candidate `i` wins: it matches, no matching candidate is longer, and none
/// of the same length stands before it.
pub open spec fn is_longest_match(candidates: Seq<Option<usize>>, i: int) -> bool {
    &&& 0 <= i < candidates.len()
    &&& candidates[i] is Some
    &&& forall|j: int|
        0 <= j < candidates.len() && (#[trigger] candidates[j]) is Some ==> candidates[j]->0
            <= candidates[i]->0
    &&& forall|j: int|
        0 <= j < i && (#[trigger] candidates[j]) is Some ==> candidates[j]->0 < candidates[i]->0
}

/// No candidate matches.
pub open spec fn no_match(candidates: Seq<Option<usize>>) -> bool {
    forall|j: int| 0 <= j < candidates.len() ==> (#[trigger] candidates[j]) is None
}

/// Picks the winning candidate, if any candidate matches.
pub fn pick_longest(candidates: &Vec<Option<usize>>) -> (winner: Option<usize>)
    ensures
        match winner {
            Some(i) => is_longest_match(candidates@, i as int),
            None => no_match(candidates@),
        },
{
    let mut best: Option<usize> = None;
    let mut k: usize = 0;
    while k < candidates.len()
        invariant
            k <= candidates.len(),
            match best {
                Some(i) => i < k && is_longest_match(candidates@.take(k as int), i as int),
                None => no_match(candidates@.take(k as int)),
            },
        decreases candidates.len() - k,
    {
        let ghost before = candidates@.take(k as int);
        let ghost after = candidates@.take(k + 1);
        assert(forall|j: int| 0 <= j < k ==> after[j] == before[j]);
        match candidates[k] {
            Some(len) => {
                let better = match best {
                    Some(i) => {
                        assert(before[i as int] is Some);
                        match candidates[i] {
                            Some(best_len) => len > best_len,
                            None => true,
                        }
                    },
                    None => true,
                };
                if better {
                    assert forall|j: int| 0 <= j < k && (#[trigger] after[j]) is Some implies after[j]->0
                        < len by {
                        assert(before[j] is Some);
                    }
                    best = Some(k);
                } else {
                    assert(is_longest_match(after, best->0 as int)) by {
                        assert forall|j: int|
                            0 <= j < after.len() && (#[trigger] after[j]) is Some implies after[j]->0
                            <= after[best->0 as int]->0 by {
                            if j < k {
                                assert(before[j] is Some);
                            }
                        }
                        assert forall|j: int|
                            0 <= j < best->0 && (#[trigger] after[j]) is Some implies after[j]->0
                            < after[best->0 as int]->0 by {
                            assert(before[j] is Some);
                        }
                    }
                }
            },
            None => {
                match best {
                    Some(i) => {
                        assert(is_longest_match(after, i as int)) by {
                            assert forall|j: int|
                                0 <= j < after.len() && (#[trigger] after[j]) is Some implies after[j]->0
                                <= after[i as int]->0 by {
                                assert(before[j] is Some);
                            }
                            assert forall|j: int|
                                0 <= j < i && (#[trigger] after[j]) is Some implies after[j]->0
                                < after[i as int]->0 by {
                                assert(before[j] is Some);
                            }
                        }
                    },
                    None => {
                        assert forall|j: int| 0 <= j < after.len() implies (#[trigger] after[j])
                            is None by {
                            if j < k {
                                assert(before[j] is None);
                            }
                        }
                    },
                }
            },
        }
        k += 1;
    }
    assert(candidates@.take(k as int) =~= candidates@);
    best
}

} // verus!
