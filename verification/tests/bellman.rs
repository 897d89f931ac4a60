use learnwell::SCALE;
use learnwell::fixed::bellman_update;

#[test]
fn bellman_update_exactness() {
    // alpha = 0.5, gamma = 0.9, old_q = 0.0, reward = 10.0, max_q_new = 5.0:
    // the updated value must be 0.0 + 0.5 * (10.0 + 0.9 * 5.0 - 0.0) = 7.25.
    let alpha = SCALE / 2;
    let gamma = 9 * SCALE / 10;
    let updated = bellman_update(0, 10 * SCALE, 5 * SCALE, alpha, gamma);
    assert_eq!(updated, 7 * SCALE + SCALE / 4);
}

#[test]
fn bellman_update_keeps_the_value_under_zero_alpha() {
    assert_eq!(bellman_update(3 * SCALE, 10 * SCALE, 5 * SCALE, 0, SCALE), 3 * SCALE);
}

#[test]
fn bellman_update_with_negative_reward() {
    // alpha = 1: the estimate becomes reward + gamma * max_q_new outright.
    let updated = bellman_update(2 * SCALE, -4 * SCALE, SCALE, SCALE, SCALE / 2);
    assert_eq!(updated, -4 * SCALE + SCALE / 2);
}

#[test]
fn bellman_update_saturates_at_the_top() {
    assert_eq!(bellman_update(i64::MAX, i64::MAX, i64::MAX, SCALE, SCALE), i64::MAX);
}
