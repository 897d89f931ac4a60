//! A policy whose exploration probability declines linearly over a horizon.

use super::ExploreStrategy;
use crate::fixed::SCALE;
use crate::progress::Progress;
use crate::rng::{rng_new, rng_u64_below, rng_usize_below, rng_with_seed};
use vstd::prelude::*;

verus! {

/// Explores with a probability that starts at one and falls linearly to a
/// floor as the last-seen epoch approaches the configured horizon.
pub struct DecliningRandom {
    pub total: usize,
    pub current: usize,
    pub min_exploration: i64,
    pub rng: fastrand::Rng,
}

/// The exploration rate as a fixed-point fraction: the floor when the
/// horizon is zero (where the linear form is undefined), otherwise the
/// larger of the floor and `1 - current / total`.
pub open spec fn rate_spec(total: usize, current: usize, min_exploration: i64) -> int {
    if total == 0 {
        min_exploration as int
    } else {
        let base = SCALE - (current as int) * (SCALE as int) / (total as int);
        if base > min_exploration {
            base
        } else {
            min_exploration as int
        }
    }
}

/// Exploration decays: as the last-seen epoch grows, the exploration rate
/// never rises, floor included.
pub proof fn lemma_rate_monotonic(total: usize, min_exploration: i64, e1: usize, e2: usize)
    requires
        e1 <= e2,
    ensures
        rate_spec(total, e2, min_exploration) <= rate_spec(total, e1, min_exploration),
{
    if total != 0 {
        vstd::arithmetic::mul::lemma_mul_inequality(e1 as int, e2 as int, SCALE as int);
        vstd::arithmetic::div_mod::lemma_div_is_ordered(
            (e1 as int) * (SCALE as int),
            (e2 as int) * (SCALE as int),
            total as int,
        );
    }
}

impl DecliningRandom {
    /// A policy over the given horizon (in epochs) and exploration floor,
    /// drawing from an entropy-seeded generator.
    pub fn new(total: usize, min_exploration: i64) -> (s: Self)
        ensures
            s.total == total,
            s.min_exploration == min_exploration,
            s.current == 0,
    {
        DecliningRandom { total, current: 0, min_exploration, rng: rng_new() }
    }

    /// The same policy, drawing from a generator in the state the seed
    /// determines, so a run can be reproduced.
    pub fn with_seed(total: usize, min_exploration: i64, seed: u64) -> (s: Self)
        ensures
            s.total == total,
            s.min_exploration == min_exploration,
            s.current == 0,
    {
        DecliningRandom { total, current: 0, min_exploration, rng: rng_with_seed(seed) }
    }

    /// The current exploration rate, exactly as [`rate_spec`] states it.
    pub fn exploration_rate(&self) -> (r: i64)
        ensures
            r == rate_spec(self.total, self.current, self.min_exploration),
    {
        if self.total == 0 {
            return self.min_exploration;
        }
        proof {
            assert((self.current as int) * (SCALE as int) <= 0xffff_ffff_ffff_ffff * (
            SCALE as int)) by (nonlinear_arith)
                requires
                    0 <= self.current <= 0xffff_ffff_ffff_ffff,
            ;
            vstd::arithmetic::div_mod::lemma_div_pos_is_pos(
                (self.current as int) * (SCALE as int),
                self.total as int,
            );
        }
        let part: u128 = ((self.current as u128) * (SCALE as u128)) / (self.total as u128);
        let base: i128 = (SCALE as i128) - (part as i128);
        if base > self.min_exploration as i128 {
            base as i64
        } else {
            self.min_exploration
        }
    }
}

/// How one uniform draw settles the choice: a draw at or above the
/// exploration rate is no exploration, so a given best index comes back
/// as it is.
pub open spec fn draw_settles(draw: i64, rate: int, best: Option<usize>, idx: usize) -> bool {
    best matches Some(b) ==> (draw >= rate ==> idx == b)
}

impl ExploreStrategy for DecliningRandom {
    /// The horizon and the floor are kept; the last-seen epoch becomes
    /// the one in `progress`. The choice follows one uniform draw below
    /// `SCALE`, as [`draw_settles`] states. In particular, once the rate
    /// has reached zero (or below), a given best index always comes back;
    /// which index an exploring draw yields is the draws' business, so
    /// nothing is promised of it.
    open spec fn pick_ens(
        pre: Self,
        post: Self,
        n_actions: usize,
        best: Option<usize>,
        progress: Progress,
        idx: usize,
    ) -> bool {
        &&& post.total == pre.total
        &&& post.min_exploration == pre.min_exploration
        &&& post.current == progress.epoch
        &&& exists|draw: i64|
            0 <= draw < SCALE && #[trigger] draw_settles(
                draw,
                rate_spec(pre.total, progress.epoch, pre.min_exploration),
                best,
                idx,
            )
        &&& rate_spec(pre.total, progress.epoch, pre.min_exploration) <= 0 ==> (best matches Some(b)
            ==> idx == b)
    }

    /// Notes the epoch, then explores (a uniformly random index) with the
    /// current exploration probability, or when there is no best-known
    /// action; otherwise returns the best-known index.
    fn pick_action(&mut self, n_actions: usize, best: Option<usize>, progress: Progress) -> (idx:
        usize) {
        self.current = progress.epoch;
        let rate = self.exploration_rate();
        let draw = rng_u64_below(&mut self.rng, SCALE as u64);
        let explore = (draw as i64) < rate;
        let idx = match (explore, best) {
            (false, Some(b)) => b,
            _ => rng_usize_below(&mut self.rng, n_actions),
        };
        proof {
            let d = draw as i64;
            assert(0 <= d < SCALE && draw_settles(
                d,
                rate_spec(self.total, progress.epoch, self.min_exploration),
                best,
                idx,
            ));
        }
        idx
    }
}

} // verus!
