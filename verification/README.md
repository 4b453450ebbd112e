# lau_thermal_rl

A thermodynamic reading of KL-regularised reinforcement learning: the
regularised objective `J = U − T·D_KL` is the Helmholtz free energy
`F = U − TS`, temperature trades exploration against exploitation, and the
explore/exploit boundary is a phase transition at a critical temperature.

## Layout

- `src/` — the verified library (Verus). It holds the discrete decisions of
  the model, each with a contract:
  - `fisher_metric` — the parameter-manifold descriptor;
  - `thermodynamic_integration` — the integrator settings, which quadrature
    rule a sample set receives, the composite Simpson weights, and the proof
    that for an odd number of samples they sum to `3(n − 1)` (Simpson's rule
    integrates constants exactly);
  - `phase_transition` — the phase enumerations, the explore / exploit /
    critical classification, and the location of a transition in a recorded
    history (first interior record of greatest curvature);
  - `thermal_policy` — greedy action (last index of a greatest score) and
    Boltzmann action by inverse-CDF sampling.

  Real scores enter the library as order keys: integers that order the
  scores exactly as the reals are ordered.
- `app/` — the real-valued layer: `f64` and `nalgebra` computations (free
  energy, Fisher matrices, natural gradient, LQR/Riccati, temperature
  schedules, entropy production, fleet agents), the serde-enabled copies of
  the library's types, and the conversion of scores to order keys.
- `tests/` — tests of the library on concrete values.
