//! Thermodynamic view of KL-regularised reinforcement learning.
//!
//! This crate holds the discrete core of the library: the parameter-space
//! descriptors, the phase and quadrature enumerations, the phase classifier,
//! the choice of quadrature rule and Simpson weights, the location of a phase
//! transition in a recorded history, and action selection (greedy and
//! inverse-CDF) over order keys that stand for real-valued scores.

pub mod fisher_metric;
pub mod phase_transition;
pub mod thermal_policy;
pub mod thermodynamic_integration;

pub use fisher_metric::FisherMetric;
pub use phase_transition::{PhaseType, PolicyPhase};
pub use thermodynamic_integration::{IntegrationMethod, ThermodynamicIntegrator};
