use learnwell::SCALE;
use learnwell::agent::Agent;
use learnwell::agent::deepqlearning::{DeepQLearning, DeepQLearningConfig, Replay, ReplayBuffer};
use learnwell::agent::nnbackend::{NNBackend, outputs_agree_after_sync, target_frozen_across_fit};
use learnwell::environment::Environment;
use learnwell::progress::Progress;
use learnwell::runner::DisplayConfig;
use learnwell::strategy::decliningrandom::DecliningRandom;
use vstd::prelude::Seq;

/// A transparent backend: `forward` adds the sum of the input onto each
/// weight, and every `fit` is recorded and nudges each weight by one.
#[derive(Clone, PartialEq, Debug)]
struct TestBackend {
    weights: Vec<i64>,
    fitted: Vec<(Vec<Vec<i64>>, Vec<Vec<i64>>, usize)>,
}

impl TestBackend {
    fn with_weights(weights: Vec<i64>) -> TestBackend {
        TestBackend { weights, fitted: Vec::new() }
    }
}

impl NNBackend for TestBackend {
    // The two ghost members exist only for verification and are erased
    // from every execution path, so their bodies here can never run.
    fn model(&self) -> Seq<i64> {
        unreachable!()
    }

    fn eval(_model: Seq<i64>, _input: Seq<i64>) -> Seq<i64> {
        unreachable!()
    }

    fn update_from(&mut self, other: &Self) {
        self.weights = other.weights.clone();
    }

    fn forward(&mut self, input: &Vec<i64>) -> Vec<i64> {
        let offset: i64 = input.iter().sum();
        self.weights.iter().map(|w| w + offset).collect()
    }

    fn fit(&mut self, inputs: &Vec<Vec<i64>>, targets: &Vec<Vec<i64>>, batch_size: usize) {
        self.fitted.push((inputs.clone(), targets.clone(), batch_size));
        for w in self.weights.iter_mut() {
            *w += 1;
        }
    }
}

/// One action; each step advances the single pixel and pays 1.0.
struct PixelEnv {
    at: u8,
    stop_after: usize,
}

impl Environment<u8, u8> for PixelEnv {
    fn state(&self) -> u8 {
        self.at
    }

    fn reset(&mut self, _epoch: usize) {
        self.at = 0;
    }

    fn all_actions(&self) -> Vec<u8> {
        vec![0]
    }

    fn take_action_get_reward(&mut self, _action: &u8) -> i64 {
        self.at = self.at.wrapping_add(1);
        SCALE
    }

    fn should_stop(&mut self, step: usize) -> bool {
        step >= self.stop_after
    }

    fn get_image(&mut self) -> Vec<u8> {
        vec![self.at]
    }
}

/// An environment that never offers an action.
struct NoActionEnv;

impl Environment<u8, u8> for NoActionEnv {
    fn state(&self) -> u8 {
        0
    }

    fn reset(&mut self, _epoch: usize) {}

    fn all_actions(&self) -> Vec<u8> {
        vec![]
    }

    fn take_action_get_reward(&mut self, _action: &u8) -> i64 {
        0
    }

    fn should_stop(&mut self, _step: usize) -> bool {
        false
    }

    fn get_image(&mut self) -> Vec<u8> {
        vec![0]
    }
}

fn quiet_config() -> DeepQLearningConfig {
    // Cadences far beyond what any test reaches, so nothing fires unless
    // a test asks for it.
    DeepQLearningConfig {
        nn_learning_rate: 10_000,
        nn_batch_size: 4,
        train_steps: 1_000,
        copy_nn_steps: 1_000,
        replay_size: 1,
        q_learning_rate: SCALE / 10,
        discount: 9 * SCALE / 10,
        history_size: 2,
    }
}

fn build_agent(
    config: DeepQLearningConfig,
    env: &mut PixelEnv,
) -> DeepQLearning<TestBackend, DecliningRandom> {
    DeepQLearning::with_seed(
        |shape: &Vec<usize>, _lr: i64| TestBackend::with_weights(vec![0; shape[shape.len() - 1]]),
        &vec![4],
        config,
        DecliningRandom::with_seed(10, 0, 5),
        env,
        11,
    )
}

fn at_step(cumulative: usize) -> Progress {
    Progress { epoch: 1, epoch_step: cumulative, cumulative_steps: cumulative }
}

#[test]
fn target_network_freeze() {
    let mut nn = TestBackend::with_weights(vec![3, 5]);
    let mut target = TestBackend::with_weights(vec![100, 200]);
    let input = vec![2, 4];

    // After update_from, target outputs equal online outputs.
    let (from_online, from_target) = outputs_agree_after_sync(&mut nn, &mut target, &input);
    assert_eq!(from_online, from_target);
    assert_eq!(from_online, vec![9, 11]);

    // One more fit on the online network alone leaves the target's
    // outputs unchanged.
    let no_rows: Vec<Vec<i64>> = vec![];
    let (before, after) =
        target_frozen_across_fit(&mut nn, &mut target, &no_rows, &no_rows, 4, &input);
    assert_eq!(before, after);
    assert_eq!(nn.weights, vec![4, 6]);
    assert_eq!(target.weights, vec![3, 5]);
}

#[test]
fn replay_buffer_fifo_bound() {
    let cap: usize = 3;
    let mut buf = ReplayBuffer::new();
    for r in 0..(cap as i64 + 1) {
        let entry = Replay {
            state: vec![],
            action_index: 0,
            next_state: vec![],
            reward: r,
            done: false,
        };
        buf.push(entry, cap);
    }
    assert_eq!(buf.items.len(), cap);
    let rewards: Vec<i64> = buf.items.iter().map(|e| e.reward).collect();
    assert_eq!(rewards, vec![1, 2, 3]);
}

#[test]
fn zero_capacity_keeps_nothing() {
    let mut buf = ReplayBuffer::new();
    for r in 0..2 {
        let entry = Replay {
            state: vec![],
            action_index: 0,
            next_state: vec![],
            reward: r,
            done: false,
        };
        buf.push(entry, 0);
    }
    assert_eq!(buf.items.len(), 0);
}

#[test]
fn history_is_bounded_through_steps() {
    let mut env = PixelEnv { at: 0, stop_after: 100 };
    let mut agent = build_agent(quiet_config(), &mut env);
    env.reset(1);
    for c in 1..=3usize {
        let done = agent.step(at_step(c), &mut env);
        assert!(!done);
    }
    assert_eq!(agent.history.items.len(), 2);
    // The first transition (pixel 0 -> 1) was evicted.
    assert_eq!(agent.history.items[0].state, vec![SCALE]);
    assert_eq!(agent.history.items[1].state, vec![2 * SCALE]);
}

#[test]
fn empty_action_set_terminates_without_recording() {
    let mut probe_env = PixelEnv { at: 0, stop_after: 100 };
    let mut agent = build_agent(quiet_config(), &mut probe_env);
    let weights_before = agent.nn.weights.clone();
    let mut env = NoActionEnv;
    let done = agent.step(at_step(1), &mut env);
    assert!(done);
    assert_eq!(agent.history.items.len(), 0);
    assert_eq!(agent.nn.weights, weights_before);
}

#[test]
fn training_builds_the_damped_temporal_difference_row() {
    let mut config = quiet_config();
    config.train_steps = 1;
    config.history_size = 10;
    let mut env = PixelEnv { at: 0, stop_after: 1 };
    let mut agent = build_agent(config, &mut env);
    env.reset(1);

    // One step: the transition ends the epoch (done), so the target is
    // the bare reward 1.0. The online net answers 0 for the recorded
    // state, and the damped move is 0 + 0.1 * (1.0 - 0) = 0.1.
    let done = agent.step(at_step(1), &mut env);
    assert!(done);
    assert_eq!(agent.nn.fitted.len(), 1);
    let (inputs, targets, batch_size) = agent.nn.fitted[0].clone();
    assert_eq!(inputs, vec![vec![0]]);
    assert_eq!(targets, vec![vec![SCALE / 10]]);
    assert_eq!(batch_size, 4);
}

#[test]
fn synchronization_cadence_copies_the_online_network() {
    let mut config = quiet_config();
    config.copy_nn_steps = 2;
    config.train_steps = 1;
    config.replay_size = 1;
    let mut env = PixelEnv { at: 0, stop_after: 100 };
    let mut agent = build_agent(config, &mut env);
    env.reset(1);

    agent.step(at_step(1), &mut env);
    // Training fired once, so the networks now differ.
    assert_ne!(agent.nn.weights, agent.nn_target.weights);
    agent.step(at_step(2), &mut env);
    // The synchronization cadence hit: the target is a copy again.
    assert_eq!(agent.nn.weights, agent.nn_target.weights);
}

#[test]
fn short_history_skips_training() {
    let mut config = quiet_config();
    config.train_steps = 1;
    config.replay_size = 64;
    let mut env = PixelEnv { at: 0, stop_after: 100 };
    let mut agent = build_agent(config, &mut env);
    env.reset(1);
    agent.step(at_step(1), &mut env);
    assert_eq!(agent.nn.fitted.len(), 0);
}

#[test]
fn display_pacing_decisions() {
    let d = DisplayConfig { fps: 10, step_time_ms: 5, step_time_start: 3 };
    assert!(d.frame_due(100_000_000));
    assert!(!d.frame_due(99_999_999));
    let unpaced = DisplayConfig { fps: 0, step_time_ms: 5, step_time_start: 3 };
    assert!(!unpaced.frame_due(0));
    assert!(!unpaced.frame_due(u64::MAX));
    assert!(!d.slowdown_applies(3));
    assert!(d.slowdown_applies(4));
    let no_delay = DisplayConfig { fps: 10, step_time_ms: 0, step_time_start: 3 };
    assert!(!no_delay.slowdown_applies(10));
}

#[test]
fn stock_configurations() {
    let c = DeepQLearningConfig::default();
    assert_eq!(c.replay_size, 64);
    assert_eq!(c.nn_batch_size, 16);
    assert_eq!(c.train_steps, 10);
    assert_eq!(c.copy_nn_steps, 80);
    assert_eq!(c.discount, 900_000);
    assert_eq!(c.q_learning_rate, 100_000);
    assert_eq!(c.nn_learning_rate, 10_000);
    assert_eq!(c.history_size, 10_000);

    let d = DisplayConfig::default();
    assert_eq!(d.fps, 10);
    assert_eq!(d.step_time_ms, 0);
    assert_eq!(d.step_time_start, 0);
}
