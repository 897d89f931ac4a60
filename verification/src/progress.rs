//! Bookkeeping for where a training run stands.

use vstd::prelude::*;

verus! {

/// The current epoch, the step within that epoch, and a step count
/// accumulated over the whole run. The runner is the only writer; agents
/// and strategies read it to gate periodic behaviour.
#[derive(Clone, Copy)]
pub struct Progress {
    pub epoch: usize,
    pub epoch_step: usize,
    pub cumulative_steps: usize,
}

impl Progress {
    /// The all-zero starting point of a run.
    pub fn start() -> (p: Progress)
        ensures
            p.epoch == 0,
            p.epoch_step == 0,
            p.cumulative_steps == 0,
    {
        Progress { epoch: 0, epoch_step: 0, cumulative_steps: 0 }
    }

    /// Steps the counters for one more step of the given epoch: the step
    /// within the epoch and the cumulative count each advance by one. The
    /// cumulative count never resets between epochs; at the very top of
    /// `usize` it wraps around, as its only consumers take it modulo a
    /// cadence.
    pub fn advance(&mut self, epoch: usize)
        requires
            old(self).epoch_step < usize::MAX,
        ensures
            final(self).epoch == epoch,
            final(self).epoch_step == old(self).epoch_step + 1,
            final(self).cumulative_steps == if old(self).cumulative_steps == usize::MAX {
                0int
            } else {
                old(self).cumulative_steps + 1
            },
    {
        self.epoch = epoch;
        self.epoch_step = self.epoch_step + 1;
        if self.cumulative_steps == usize::MAX {
            self.cumulative_steps = 0;
        } else {
            self.cumulative_steps = self.cumulative_steps + 1;
        }
    }
}

} // verus!
