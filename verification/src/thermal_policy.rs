//! Action selection for a thermal (Boltzmann) policy.
//!
//! Scores are real numbers; they reach this module as order keys, 64-bit
//! integers that order the scores exactly as the reals are ordered (the
//! IEEE-754 total order on values other than NaN, with `-0.0` taken as
//! `+0.0`). Selection then depends on comparisons alone:
//!
//! - the greedy action is an index of a greatest score, the last such index
//!   when several scores tie (the zero-temperature limit of the policy);
//! - the Boltzmann action is drawn by inverse-CDF sampling: the first action
//!   whose cumulative probability reaches the uniform draw, falling back to
//!   the last action when none does.

use vstd::prelude::*;

verus! {

/// `a` is the greedy choice over `keys`: it holds a greatest key and no later
/// index holds an equal one.
pub open spec fn is_last_argmax(keys: Seq<i64>, a: int) -> bool {
    &&& 0 <= a < keys.len()
    &&& forall|i: int| 0 <= i < keys.len() ==> #[trigger] keys[i] <= keys[a]
    &&& forall|i: int| a < i < keys.len() ==> #[trigger] keys[i] < keys[a]
}

/// The cumulative probability at index `i` reaches the draw `threshold`.
pub open spec fn reaches(cumulative: Seq<i64>, threshold: i64, i: int) -> bool {
    threshold <= cumulative[i]
}

/// `a` is the inverse-CDF choice: the first index whose cumulative probability
/// reaches the draw, or the last index when no cumulative probability does.
pub open spec fn is_inverse_cdf_choice(cumulative: Seq<i64>, threshold: i64, a: int) -> bool {
    &&& 0 <= a < cumulative.len()
    &&& (exists|i: int| 0 <= i < cumulative.len() && #[trigger] reaches(cumulative, threshold, i))
        ==> {
        &&& reaches(cumulative, threshold, a)
        &&& forall|i: int| 0 <= i < a ==> !#[trigger] reaches(cumulative, threshold, i)
    }
    &&& (forall|i: int| 0 <= i < cumulative.len() ==> !#[trigger] reaches(cumulative, threshold, i))
        ==> a == cumulative.len() - 1
}

/// Greedy action: index of the greatest score (the last of several equal
/// greatest scores), or `0` when there are no scores.
pub fn greedy_action(keys: &[i64]) -> (action: usize)
    ensures
        keys@.len() == 0 ==> action == 0,
        keys@.len() > 0 ==> is_last_argmax(keys@, action as int),
{
    let n = keys.len();
    if n == 0 {
        return 0;
    }
    let mut best: usize = 0;
    let mut i: usize = 1;
    while i < n
        invariant
            n == keys@.len(),
            1 <= i <= n,
            best < i,
            forall|k: int| 0 <= k < i ==> #[trigger] keys@[k] <= keys@[best as int],
            forall|k: int| best < k < i ==> #[trigger] keys@[k] < keys@[best as int],
        decreases n - i,
    {
        if keys[i] >= keys[best] {
            best = i;
        }
        i += 1;
    }
    best
}

/// Boltzmann action by inverse-CDF sampling: the first action whose
/// cumulative probability reaches the draw `threshold`, else the last action.
pub fn boltzmann_action(cumulative: &[i64], threshold: i64) -> (action: usize)
    requires
        cumulative@.len() > 0,
    ensures
        is_inverse_cdf_choice(cumulative@, threshold, action as int),
{
    let n = cumulative.len();
    let mut i: usize = 0;
    while i < n
        invariant
            n == cumulative@.len(),
            0 <= i <= n,
            forall|k: int| 0 <= k < i ==> !#[trigger] reaches(cumulative@, threshold, k),
        decreases n - i,
    {
        if threshold <= cumulative[i] {
            assert(reaches(cumulative@, threshold, i as int));
            return i;
        }
        i += 1;
    }
    n - 1
}

} // verus!
