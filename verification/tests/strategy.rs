use learnwell::SCALE;
use learnwell::progress::Progress;
use learnwell::strategy::ExploreStrategy;
use learnwell::strategy::decliningrandom::DecliningRandom;

fn at_epoch(epoch: usize) -> Progress {
    Progress { epoch, epoch_step: 1, cumulative_steps: 1 }
}

#[test]
fn exploration_rate_starts_at_one() {
    let s = DecliningRandom::new(100, 50_000);
    assert_eq!(s.exploration_rate(), SCALE);
}

#[test]
fn exploration_rate_halfway() {
    let mut s = DecliningRandom::with_seed(100, 50_000, 7);
    s.pick_action(1, None, at_epoch(50));
    assert_eq!(s.exploration_rate(), SCALE / 2);
}

#[test]
fn exploration_rate_reaches_the_floor() {
    let mut s = DecliningRandom::with_seed(100, 50_000, 7);
    s.pick_action(1, None, at_epoch(100));
    assert_eq!(s.exploration_rate(), 50_000);
}

#[test]
fn exploration_rate_stays_at_the_floor_past_the_horizon() {
    let mut s = DecliningRandom::with_seed(100, 50_000, 7);
    s.pick_action(1, None, at_epoch(150));
    assert_eq!(s.exploration_rate(), 50_000);
}

#[test]
fn zero_horizon_sits_at_the_floor() {
    // With no decay horizon the linear form is undefined; the rate is
    // the floor outright.
    let s = DecliningRandom::new(0, 123);
    assert_eq!(s.exploration_rate(), 123);
}

#[test]
fn exploration_rate_never_rises() {
    let mut s = DecliningRandom::with_seed(100, 50_000, 7);
    let mut last = s.exploration_rate();
    for epoch in 0..150 {
        s.pick_action(1, None, at_epoch(epoch));
        let rate = s.exploration_rate();
        assert!(rate <= last);
        last = rate;
    }
}

#[test]
fn a_single_action_is_always_picked() {
    let mut s = DecliningRandom::with_seed(10, 0, 42);
    for epoch in 0..20 {
        assert_eq!(s.pick_action(1, None, at_epoch(epoch)), 0);
    }
}

#[test]
fn exhausted_exploration_returns_the_best_index() {
    // Past the horizon with a zero floor the rate is zero, and no draw
    // can fall below it: the best-known index must come back every time.
    let mut s = DecliningRandom::with_seed(10, 0, 42);
    for _ in 0..20 {
        assert_eq!(s.pick_action(3, Some(2), at_epoch(10)), 2);
    }
}

#[test]
fn full_exploration_ignores_the_best_index() {
    // At epoch zero the rate is 1.0, so every draw explores: across many
    // picks the choice must range over all three indices rather than
    // sticking to the best-known one.
    let mut s = DecliningRandom::with_seed(100, 0, 9);
    let mut seen = [false; 3];
    for _ in 0..100 {
        let idx = s.pick_action(3, Some(2), at_epoch(0));
        seen[idx] = true;
    }
    assert_eq!(seen, [true, true, true]);
}

#[test]
fn picked_index_stays_in_range() {
    let mut s = DecliningRandom::new(100, 50_000);
    for epoch in 0..50 {
        let idx = s.pick_action(4, Some(1), at_epoch(epoch));
        assert!(idx < 4);
    }
}
