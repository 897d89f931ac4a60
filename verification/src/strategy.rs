//! Action-selection policies.

use crate::progress::Progress;
use vstd::prelude::*;

pub mod decliningrandom;

verus! {

/// A policy that, given how many legal actions there are and the index of
/// the best-known action among them (if any), chooses the index of the
/// action to take.
///
/// Indices always refer to the caller's current action list; the policy
/// itself never inspects action values, so the choice it makes is stated
/// entirely over counts and indices.
pub trait ExploreStrategy: Sized {
    /// What one `pick_action` call promises of the policy's own state and
    /// its choice, beyond the bound on the returned index.
    spec fn pick_ens(
        pre: Self,
        post: Self,
        n_actions: usize,
        best: Option<usize>,
        progress: Progress,
        idx: usize,
    ) -> bool;

    /// Chooses the index of the action to take among `n_actions` legal
    /// actions. The caller must rule out an empty action list before
    /// asking.
    fn pick_action(&mut self, n_actions: usize, best: Option<usize>, progress: Progress) -> (idx:
        usize)
        requires
            n_actions > 0,
            best matches Some(b) ==> b < n_actions,
        ensures
            idx < n_actions,
            Self::pick_ens(*old(self), *final(self), n_actions, best, progress, idx),
    ;
}

} // verus!
