use learnwell::SCALE;
use learnwell::agent::Agent;
use learnwell::agent::qlearning::QLearning;
use learnwell::agent::qtable::QTable;
use learnwell::environment::Environment;
use learnwell::progress::Progress;
use learnwell::runner::Runner;
use learnwell::strategy::decliningrandom::DecliningRandom;

#[derive(Clone, PartialEq, Eq, Debug, Hash)]
enum TwoState {
    A,
    B,
}

#[derive(Clone, PartialEq, Eq, Debug, Hash)]
enum Move {
    Go,
}

/// Two states, one action: `Go` moves A to B with reward 1.0, and B is
/// terminal.
struct TwoStateEnv {
    at: TwoState,
}

impl Environment<TwoState, Move> for TwoStateEnv {
    fn state(&self) -> TwoState {
        self.at.clone()
    }

    fn reset(&mut self, _epoch: usize) {
        self.at = TwoState::A;
    }

    fn all_actions(&self) -> Vec<Move> {
        match self.at {
            TwoState::A => vec![Move::Go],
            TwoState::B => vec![],
        }
    }

    fn take_action_get_reward(&mut self, _action: &Move) -> i64 {
        self.at = TwoState::B;
        SCALE
    }

    fn should_stop(&mut self, _step: usize) -> bool {
        self.at == TwoState::B
    }

    fn get_image(&mut self) -> Vec<u8> {
        Vec::new()
    }
}

/// An environment that never offers an action.
struct NoActionEnv;

impl Environment<u8, u8> for NoActionEnv {
    fn state(&self) -> u8 {
        0
    }

    fn reset(&mut self, _epoch: usize) {}

    fn all_actions(&self) -> Vec<u8> {
        vec![]
    }

    fn take_action_get_reward(&mut self, _action: &u8) -> i64 {
        0
    }

    fn should_stop(&mut self, _step: usize) -> bool {
        false
    }

    fn get_image(&mut self) -> Vec<u8> {
        Vec::new()
    }
}

/// One state with one action leading to a state whose best estimate is
/// pre-seeded, so the update's inputs are all known.
struct SeededEnv {
    at: u8,
}

impl Environment<u8, u8> for SeededEnv {
    fn state(&self) -> u8 {
        self.at
    }

    fn reset(&mut self, _epoch: usize) {
        self.at = 0;
    }

    fn all_actions(&self) -> Vec<u8> {
        match self.at {
            0 => vec![0],
            _ => vec![],
        }
    }

    fn take_action_get_reward(&mut self, _action: &u8) -> i64 {
        self.at = 1;
        10 * SCALE
    }

    fn should_stop(&mut self, _step: usize) -> bool {
        self.at == 1
    }

    fn get_image(&mut self) -> Vec<u8> {
        Vec::new()
    }
}

#[test]
fn two_state_deterministic_environment() {
    // After one epoch, QTable[A][Go] must equal alpha * 1.0: old_q and
    // max_q_new are both zero, so the update is alpha * reward.
    let alpha = SCALE / 2;
    let gamma = 9 * SCALE / 10;
    let mut agent: QLearning<TwoState, Move, DecliningRandom> =
        QLearning::new(alpha, gamma, DecliningRandom::with_seed(10, 100_000, 3));
    let mut env = TwoStateEnv { at: TwoState::A };
    Runner::run(&mut agent, &mut env, 1);
    assert_eq!(agent.qtable.get(&TwoState::A, &Move::Go), alpha);
    assert_eq!(agent.qtable.entries.len(), 1);
}

#[test]
fn zero_epochs_changes_nothing() {
    let mut agent: QLearning<TwoState, Move, DecliningRandom> =
        QLearning::new(SCALE / 2, SCALE / 2, DecliningRandom::with_seed(5, 0, 1));
    let mut env = TwoStateEnv { at: TwoState::A };
    Runner::run(&mut agent, &mut env, 0);
    assert_eq!(agent.qtable.entries.len(), 0);
    assert_eq!(env.at, TwoState::A);
}

#[test]
fn empty_action_set_terminates_without_learning() {
    let mut agent: QLearning<u8, u8, DecliningRandom> =
        QLearning::new(SCALE / 2, SCALE / 2, DecliningRandom::new(5, 0));
    let mut env = NoActionEnv;
    let done = agent.step(Progress { epoch: 1, epoch_step: 1, cumulative_steps: 1 }, &mut env);
    assert!(done);
    assert_eq!(agent.qtable.entries.len(), 0);
}

#[test]
fn bellman_update_lands_in_the_table() {
    // old_q = 0, reward = 10.0, and the successor's best estimate is
    // seeded to 5.0: with alpha = 0.5 and gamma = 0.9 the stored value
    // must become exactly 7.25.
    let mut agent: QLearning<u8, u8, DecliningRandom> =
        QLearning::new(SCALE / 2, 9 * SCALE / 10, DecliningRandom::with_seed(10, 100_000, 3));
    agent.qtable.set(1, 0, 5 * SCALE);
    let mut env = SeededEnv { at: 0 };
    Runner::run(&mut agent, &mut env, 1);
    assert_eq!(agent.qtable.get(&0, &0), 7 * SCALE + SCALE / 4);
}

#[test]
fn table_defaults_to_zero_and_holds_what_is_set() {
    let mut t: QTable<u8, u8> = QTable::new();
    assert_eq!(t.get(&1, &2), 0);
    t.set(1, 2, 700);
    assert_eq!(t.get(&1, &2), 700);
    t.set(1, 2, -5);
    assert_eq!(t.get(&1, &2), -5);
    assert_eq!(t.get(&1, &3), 0);
    assert_eq!(t.get(&9, &2), 0);
    assert_eq!(t.entries.len(), 1);
}

#[test]
fn argmax_prefers_the_earliest_of_equals() {
    let mut t: QTable<u8, u8> = QTable::new();
    t.set(7, 1, 5);
    t.set(7, 2, 5);
    t.set(7, 3, 4);
    assert_eq!(t.best_for(&7), Some(&1));
    assert_eq!(t.max_for(&7), 5);
    assert_eq!(t.best_for(&8), None);
    assert_eq!(t.max_for(&8), 0);
}

#[test]
fn max_keeps_a_negative_best() {
    let mut t: QTable<u8, u8> = QTable::new();
    t.set(9, 1, -3);
    t.set(9, 2, -7);
    assert_eq!(t.max_for(&9), -3);
    assert_eq!(t.best_for(&9), Some(&1));
}
