//! The capability an environment offers to the training core.

use vstd::prelude::*;

verus! {

/// An external simulation the agent acts in. Concrete environments are
/// collaborators outside this library, so no behaviour is promised of
/// them: everything proved about the agents holds whatever an
/// implementation returns.
pub trait Environment<S, A> {
    /// A snapshot of the current state.
    fn state(&self) -> S;

    /// Re-initializes for a new epoch; the epoch number is for the
    /// environment's own bookkeeping only.
    fn reset(&mut self, epoch: usize);

    /// The full legal action set for the current state. An empty result
    /// tells the agent to end the epoch at once.
    fn all_actions(&self) -> Vec<A>;

    /// Applies the action to the state and returns the reward, in fixed
    /// point (see [`crate::fixed`]). The action should come from the
    /// current `all_actions`.
    fn take_action_get_reward(&mut self, action: &A) -> i64;

    /// Whether the epoch is over, based on the state or on the step count.
    fn should_stop(&mut self, step: usize) -> bool;

    /// A flattened image of the current state, one byte per pixel; the
    /// deep agent's input. May be empty where unused.
    fn get_image(&mut self) -> Vec<u8>;
}

} // verus!
