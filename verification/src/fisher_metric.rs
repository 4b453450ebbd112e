//! Fisher information metric on policy space.
//!
//! The metric itself is real-valued; what is held here is the manifold's
//! description: the dimension of the parameter space it acts on.

use vstd::prelude::*;

verus! {

/// Fisher information metric tensor on a policy parameter manifold.
#[derive(Debug, Clone, Copy, PartialEq, Eq, Structural)]
pub struct FisherMetric {
    /// Dimension of the parameter space
    pub dim: usize,
}

impl FisherMetric {
    /// Create a new Fisher metric for a `dim`-dimensional parameter space.
    pub fn new(dim: usize) -> (metric: Self)
        ensures
            metric.dim == dim,
    {
        FisherMetric { dim }
    }
}

} // verus!
