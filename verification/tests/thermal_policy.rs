use lau_thermal_rl::thermal_policy::{boltzmann_action, greedy_action};

/// Order key of a real score: orders keys as the scores are ordered.
fn order_key(x: f64) -> i64 {
    let bits = (x + 0.0).to_bits() as i64;
    bits ^ ((((bits >> 63) as u64) >> 1) as i64)
}

fn keys(xs: &[f64]) -> Vec<i64> {
    xs.iter().map(|&x| order_key(x)).collect()
}

fn boltzmann_weights(q_values: &[f64], temperature: f64) -> Vec<f64> {
    let t = temperature.max(1e-6);
    let max_q = q_values.iter().cloned().fold(f64::NEG_INFINITY, f64::max);
    let w: Vec<f64> = q_values.iter().map(|q| ((q - max_q) / t).exp()).collect();
    let sum: f64 = w.iter().sum();
    w.iter().map(|x| x / sum).collect()
}

fn sample(q_values: &[f64], temperature: f64, random_value: f64) -> usize {
    let mut cumsum = 0.0;
    let cumulative: Vec<i64> = boltzmann_weights(q_values, temperature)
        .iter()
        .map(|p| {
            cumsum += p;
            order_key(cumsum)
        })
        .collect();
    boltzmann_action(&cumulative, order_key(random_value))
}

#[test]
fn test_greedy_action() {
    let q = vec![1.0, 2.0, 3.0, 4.0];
    assert_eq!(greedy_action(&keys(&q)), 3);
}

#[test]
fn test_boltzmann_action_low_temp() {
    let q = vec![1.0, 2.0, 3.0];
    assert_eq!(sample(&q, 0.01, 0.5), 2);
}

#[test]
fn greedy_empty_is_zero() {
    assert_eq!(greedy_action(&[]), 0);
}

#[test]
fn greedy_ties_pick_last() {
    assert_eq!(greedy_action(&keys(&[5.0, 1.0, 5.0, 2.0])), 2);
    assert_eq!(greedy_action(&keys(&[0.0, -0.0])), 1);
}

#[test]
fn greedy_negative_scores() {
    assert_eq!(greedy_action(&keys(&[-3.0, -1.5, -2.0])), 1);
    assert_eq!(greedy_action(&keys(&[-1.0, f64::NEG_INFINITY])), 0);
}

#[test]
fn order_keys_follow_reals() {
    let xs = [f64::NEG_INFINITY, -2.0, -1.0, -1e-300, 0.0, 1e-300, 1.0, 2.0, f64::INFINITY];
    for w in xs.windows(2) {
        assert!(order_key(w[0]) < order_key(w[1]));
    }
}

#[test]
fn inverse_cdf_first_reaching() {
    let cumulative = keys(&[0.2, 0.5, 1.0]);
    assert_eq!(boltzmann_action(&cumulative, order_key(0.0)), 0);
    assert_eq!(boltzmann_action(&cumulative, order_key(0.2)), 0);
    assert_eq!(boltzmann_action(&cumulative, order_key(0.3)), 1);
    assert_eq!(boltzmann_action(&cumulative, order_key(0.9)), 2);
}

#[test]
fn inverse_cdf_falls_back_to_last() {
    let cumulative = keys(&[0.2, 0.5, 0.99]);
    assert_eq!(boltzmann_action(&cumulative, order_key(1.0)), 2);
}

#[test]
fn boltzmann_action_high_temp_is_spread() {
    let q = vec![1.0, 2.0, 3.0];
    assert_eq!(sample(&q, 1000.0, 0.1), 0);
    assert_eq!(sample(&q, 1000.0, 0.5), 1);
    assert_eq!(sample(&q, 1000.0, 0.9), 2);
}
