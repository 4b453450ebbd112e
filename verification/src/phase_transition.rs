//! Phase transitions in policy space.
//!
//! The critical temperature `T_c` separates the ordered (exploit) phase from
//! the disordered (explore) phase; the order parameter is the policy entropy.
//! This module holds the phase enumerations, the classification rule, and the
//! location of a transition in a recorded `(temperature, entropy)` history,
//! the point of greatest curvature `|∂²S/∂T²|`.
//!
//! Curvatures are handed in as order keys: for a non-negative real value the
//! key is its IEEE-754 bit pattern, which orders such values exactly as the
//! reals are ordered (zero has key `0`). A record that yields no curvature (a
//! degenerate temperature step, or an undefined value) has no key.

use vstd::prelude::*;

verus! {

/// Type of phase transition.
#[derive(Debug, Clone, Copy, PartialEq, Eq, Structural)]
pub enum PhaseType {
    /// First-order: discontinuous jump in order parameter
    FirstOrder,
    /// Second-order: continuous but non-differentiable
    SecondOrder,
    /// Crossover: smooth interpolation (no true phase transition)
    Crossover,
}

/// Phase of the policy.
#[derive(Debug, Clone, Copy, PartialEq, Eq, Structural)]
pub enum PolicyPhase {
    /// Exploit phase (low temperature, low entropy)
    Exploit,
    /// Explore phase (high temperature, high entropy)
    Explore,
    /// Critical (near phase transition)
    Critical,
}

/// Phase of a policy at temperature `T`, given whether the ratio `T / T_c`
/// lies within the tolerance of `1` and whether it lies below `1`. Nearness to
/// the critical point takes precedence over the side on which `T` lies.
pub open spec fn phase_of(near_critical: bool, below_critical: bool) -> PolicyPhase {
    if near_critical {
        PolicyPhase::Critical
    } else if below_critical {
        PolicyPhase::Exploit
    } else {
        PolicyPhase::Explore
    }
}

/// Classify the policy phase: `Critical` when `|T/T_c − 1| < tolerance`,
/// otherwise `Exploit` below the critical temperature and `Explore` above it.
pub fn classify_phase(near_critical: bool, below_critical: bool) -> (phase: PolicyPhase)
    ensures
        phase == phase_of(near_critical, below_critical),
        (phase == PolicyPhase::Critical) <==> near_critical,
        (phase == PolicyPhase::Exploit) <==> (!near_critical && below_critical),
        (phase == PolicyPhase::Explore) <==> (!near_critical && !below_critical),
{
    if near_critical {
        PolicyPhase::Critical
    } else if below_critical {
        PolicyPhase::Exploit
    } else {
        PolicyPhase::Explore
    }
}

/// Record `i` is an interior record of the history whose curvature is known
/// and exceeds zero.
pub open spec fn is_transition_candidate(curvature: Seq<Option<u64>>, i: int) -> bool {
    &&& 1 <= i < curvature.len() - 1
    &&& curvature[i] is Some
    &&& curvature[i]->0 > 0
}

/// `j` is where the history's transition lies: the first interior record of
/// greatest positive curvature, or the first record when no interior record
/// has a positive curvature.
pub open spec fn is_transition_index(curvature: Seq<Option<u64>>, j: int) -> bool {
    ||| {
        &&& j == 0
        &&& forall|i: int| !is_transition_candidate(curvature, i)
    }
    ||| {
        &&& is_transition_candidate(curvature, j)
        &&& forall|i: int| #[trigger]
            is_transition_candidate(curvature, i) ==> curvature[i]->0 <= curvature[j]->0
        &&& forall|i: int|
            #[trigger] is_transition_candidate(curvature, i) && i < j ==> curvature[i]->0
                < curvature[j]->0
    }
}

/// Locate the phase transition in a history of records, one curvature key per
/// record (the first and last records have no neighbours on both sides and
/// are never candidates). Returns `None` when fewer than three records are
/// held, else the index of the record at which the transition lies.
pub fn detect_transition(curvature: &[Option<u64>]) -> (index: Option<usize>)
    ensures
        index is None <==> curvature@.len() < 3,
        index matches Some(j) ==> j < curvature@.len() && is_transition_index(curvature@, j as int),
{
    let n = curvature.len();
    if n < 3 {
        return None;
    }
    let mut best: u64 = 0;
    let mut at: usize = 0;
    let mut i: usize = 1;
    while i < n - 1
        invariant
            n == curvature@.len(),
            n >= 3,
            1 <= i <= n - 1,
            at < i,
            at == 0 ==> best == 0,
            at == 0 ==> forall|k: int| k < i ==> !is_transition_candidate(curvature@, k),
            at != 0 ==> is_transition_candidate(curvature@, at as int) && best
                == curvature@[at as int]->0,
            forall|k: int|
                k < i && #[trigger] is_transition_candidate(curvature@, k) ==> curvature@[k]->0
                    <= best,
            forall|k: int|
                k < at && #[trigger] is_transition_candidate(curvature@, k) ==> curvature@[k]->0
                    < best,
        decreases n - 1 - i,
    {
        match curvature[i] {
            Some(v) => {
                if v > best {
                    best = v;
                    at = i;
                }
            },
            None => {},
        }
        i += 1;
    }
    Some(at)
}

} // verus!
