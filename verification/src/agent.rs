//! Agents that step through an environment, learning as they go.

use crate::environment::Environment;
use crate::progress::Progress;
use vstd::prelude::*;

pub mod deepqlearning;
pub mod nnbackend;
pub mod qlearning;
pub mod qtable;

verus! {

/// One learner driven by the runner: each call to `step` observes the
/// environment, possibly acts and learns, and says whether the epoch is
/// over.
pub trait Agent<S, A, E: Environment<S, A>>: Sized {
    /// The agent's well-formedness: what construction establishes and
    /// every step preserves.
    spec fn wf(&self) -> bool;

    /// What one step promises of the agent's state and the flag it
    /// returns, beyond preserving well-formedness.
    spec fn step_ens(pre: Self, post: Self, progress: Progress, done: bool) -> bool;

    /// What one delegated pick promises: what of the agent's state is
    /// untouched, and how the chosen index relates to the strategy's own
    /// promise.
    spec fn pick_ens(
        pre: Self,
        post: Self,
        n_actions: usize,
        best: Option<usize>,
        progress: Progress,
        idx: usize,
    ) -> bool;

    /// Performs one step in the environment and returns whether the
    /// epoch is over.
    fn step(&mut self, progress: Progress, env: &mut E) -> (done: bool)
        requires
            old(self).wf(),
        ensures
            final(self).wf(),
            Self::step_ens(*old(self), *final(self), progress, done),
    ;

    /// Chooses among `n_actions` legal actions, given the index of the
    /// best-known one; agents delegate this to their strategy.
    fn pick_action(&mut self, n_actions: usize, best: Option<usize>, progress: Progress) -> (idx:
        usize)
        requires
            old(self).wf(),
            n_actions > 0,
            best matches Some(b) ==> b < n_actions,
        ensures
            final(self).wf(),
            idx < n_actions,
            Self::pick_ens(*old(self), *final(self), n_actions, best, progress, idx),
    ;
}

} // verus!
