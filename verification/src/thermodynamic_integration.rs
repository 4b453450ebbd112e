//! Thermodynamic integration: path integrals for policy evaluation.
//!
//! Free energy difference: ΔF = ∫₀¹ ⟨∂F/∂β⟩_β dβ, computed by numerical
//! quadrature over samples `(β_i, f_i)`. This module decides which quadrature
//! rule a given number of samples receives, and gives the composite Simpson
//! weights `1, 4, 2, 4, …, 2, 4, 1` by which the samples are combined.

use vstd::prelude::*;

verus! {

/// Numerical integration method.
#[derive(Debug, Clone, Copy, PartialEq, Eq, Structural)]
pub enum IntegrationMethod {
    /// Left Riemann sum
    LeftRiemann,
    /// Trapezoidal rule
    Trapezoidal,
    /// Simpson's rule (even number of intervals)
    Simpson,
}

/// Thermodynamic integration via path integrals.
#[derive(Debug, Clone, Copy, PartialEq, Eq, Structural)]
pub struct ThermodynamicIntegrator {
    /// Number of integration steps
    pub n_steps: usize,
    /// Integration method
    pub method: IntegrationMethod,
}

/// The rule that is applied to `n_samples` samples under the chosen `method`:
/// none at all for an empty sample set (the integral is then zero), and the
/// trapezoidal rule in place of Simpson's when there are fewer than three
/// samples.
pub open spec fn applied_rule(method: IntegrationMethod, n_samples: nat) -> Option<IntegrationMethod> {
    if n_samples == 0 {
        None
    } else if method == IntegrationMethod::Simpson && n_samples < 3 {
        Some(IntegrationMethod::Trapezoidal)
    } else {
        Some(method)
    }
}

/// Every non-empty sample set is integrated by the chosen method itself: the
/// left Riemann sum stays a left Riemann sum and the trapezoidal rule stays the
/// trapezoidal rule for any number of samples, and Simpson's rule is applied
/// whenever there are at least three samples. The only substitution is the
/// trapezoidal rule for Simpson's on one or two samples, and an empty sample
/// set receives no rule at all (its integral is zero).
pub proof fn lemma_rule_is_chosen_method(method: IntegrationMethod, n_samples: nat)
    ensures
        n_samples == 0 <==> applied_rule(method, n_samples) is None,
        n_samples > 0 && method != IntegrationMethod::Simpson ==> applied_rule(method, n_samples)
            == Some(method),
        method == IntegrationMethod::LeftRiemann && n_samples > 0 ==> applied_rule(
            method,
            n_samples,
        ) == Some(IntegrationMethod::LeftRiemann),
        method == IntegrationMethod::Trapezoidal && n_samples > 0 ==> applied_rule(
            method,
            n_samples,
        ) == Some(IntegrationMethod::Trapezoidal),
        n_samples >= 3 ==> applied_rule(method, n_samples) == Some(method),
        method == IntegrationMethod::Simpson && 0 < n_samples < 3 ==> applied_rule(
            method,
            n_samples,
        ) == Some(IntegrationMethod::Trapezoidal),
{
}

/// Weight of sample `i` out of `n` in the composite Simpson rule: `1` at both
/// ends, `4` at odd interior positions, `2` at even interior positions.
pub open spec fn simpson_weight(i: int, n: int) -> int {
    if i == 0 || i == n - 1 {
        1
    } else if i % 2 == 1 {
        4
    } else {
        2
    }
}

/// Sum of the first `k` Simpson weights for `n` samples.
pub open spec fn simpson_weight_prefix(n: int, k: nat) -> int
    decreases k,
{
    if k == 0 {
        0
    } else {
        simpson_weight_prefix(n, (k - 1) as nat) + simpson_weight(k - 1, n)
    }
}

impl ThermodynamicIntegrator {
    /// Create a new thermodynamic integrator using the trapezoidal rule.
    pub fn new(n_steps: usize) -> (integrator: Self)
        ensures
            integrator.n_steps == n_steps,
            integrator.method == IntegrationMethod::Trapezoidal,
    {
        ThermodynamicIntegrator { n_steps, method: IntegrationMethod::Trapezoidal }
    }

    /// The quadrature rule `integrate_free_energy` applies to `n_samples`
    /// samples; `None` means the sample set is empty and the integral is zero.
    pub fn integration_rule(&self, n_samples: usize) -> (rule: Option<IntegrationMethod>)
        ensures
            rule == applied_rule(self.method, n_samples as nat),
            n_samples == 0 ==> rule is None,
            n_samples > 0 && self.method != IntegrationMethod::Simpson ==> rule == Some(self.method),
            n_samples >= 3 ==> rule == Some(self.method),
            0 < n_samples < 3 && self.method == IntegrationMethod::Simpson ==> rule == Some(
                IntegrationMethod::Trapezoidal,
            ),
    {
        if n_samples == 0 {
            None
        } else if self.method == IntegrationMethod::Simpson && n_samples < 3 {
            Some(IntegrationMethod::Trapezoidal)
        } else {
            Some(self.method)
        }
    }
}

/// Weight of sample `i` in the composite Simpson sum over `n_samples` samples.
pub fn simpson_coefficient(i: usize, n_samples: usize) -> (w: u64)
    requires
        i < n_samples,
    ensures
        w == simpson_weight(i as int, n_samples as int),
        i == 0 || i == n_samples - 1 ==> w == 1,
        0 < i < n_samples - 1 && i % 2 == 1 ==> w == 4,
        0 < i < n_samples - 1 && i % 2 == 0 ==> w == 2,
{
    if i == 0 || i == n_samples - 1 {
        1
    } else if i % 2 == 1 {
        4
    } else {
        2
    }
}

/// The first `k` Simpson weights (`k < n`) sum to `1 + 3(k − 1)`, plus one
/// when an odd number of interior weights has been taken.
proof fn lemma_simpson_prefix(n: int, k: nat)
    requires
        1 <= k <= n - 1,
    ensures
        simpson_weight_prefix(n, k) == 1 + 3 * (k - 1) + (k - 1) % 2,
    decreases k,
{
    if k == 1 {
        assert(simpson_weight_prefix(n, 0) == 0);
    } else {
        lemma_simpson_prefix(n, (k - 1) as nat);
        let m = k - 1;
        assert(simpson_weight_prefix(n, k) == simpson_weight_prefix(n, (k - 1) as nat) + simpson_weight(m, n));
        if m % 2 == 1 {
            assert((m - 1) % 2 == 0);
        } else {
            assert((m - 1) % 2 == 1);
        }
    }
}

/// Simpson's rule with an even number of intervals (an odd number `n ≥ 3` of
/// samples) has weights summing to `3 (n − 1)`, so that with spacing `h` it
/// integrates a constant `c` exactly: `c · 3(n − 1) · h / 3 = c · (b − a)`.
pub proof fn lemma_simpson_weights_sum(n: nat)
    requires
        n >= 3,
        n % 2 == 1,
    ensures
        simpson_weight_prefix(n as int, n) == 3 * (n - 1),
{
    lemma_simpson_prefix(n as int, (n - 1) as nat);
}

} // verus!
