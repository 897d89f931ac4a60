//! The driver: epochs of agent steps through an environment.

use crate::agent::Agent;
use crate::environment::Environment;
use crate::progress::Progress;
use vstd::prelude::*;

verus! {

/// How the progress values of two consecutive steps relate: the epoch
/// stays or moves up by one, the step within an epoch counts up by one
/// and restarts at one on an epoch boundary, and the cumulative count
/// advances by exactly one (wrapping at the top of `usize`).
pub open spec fn progress_follows(prev: Progress, cur: Progress) -> bool {
    &&& cur.epoch == prev.epoch || cur.epoch == prev.epoch + 1
    &&& cur.epoch == prev.epoch ==> cur.epoch_step == prev.epoch_step + 1
    &&& cur.epoch == prev.epoch + 1 ==> cur.epoch_step == 1
    &&& cur.cumulative_steps == if prev.cumulative_steps == usize::MAX {
        0int
    } else {
        prev.cumulative_steps + 1
    }
}

/// The discipline of the progress values a run hands to its steps, in
/// order: the first step sees epoch one, step one, cumulative count one;
/// every epoch lies in `1..=epochs`; and each later value follows its
/// predecessor as [`progress_follows`] states.
pub open spec fn progress_discipline(progs: Seq<Progress>, epochs: usize) -> bool {
    &&& progs.len() > 0 ==> progs[0] == (Progress { epoch: 1, epoch_step: 1, cumulative_steps: 1 })
    &&& forall|i: int|
        0 <= i < progs.len() ==> 1 <= (#[trigger] progs[i]).epoch <= epochs && progs[i].epoch_step
            >= 1
    &&& forall|i: int| 0 < i < progs.len() ==> progress_follows(progs[i - 1], #[trigger] progs[i])
}

/// Which steps may end an epoch: a step that reports done is its
/// epoch's last, and an epoch boundary is crossed only after a done
/// report — or after the in-epoch step counter's cutoff at the top of
/// `usize`, which no machine reaches.
pub open spec fn epochs_end_on_done(progs: Seq<Progress>, dones: Seq<bool>) -> bool {
    &&& forall|i: int|
        0 <= i < progs.len() - 1 ==> (dones[i] ==> progs[i + 1].epoch == (#[trigger] progs[i]).epoch
            + 1)
    &&& forall|i: int|
        0 <= i < progs.len() - 1 ==> (progs[i + 1].epoch != (#[trigger] progs[i]).epoch
            ==> dones[i] || progs[i].epoch_step == usize::MAX)
}

/// One training run seen end to end: the agent states it passes
/// through, from `pre` to `post`, each step chained by the agent's own
/// stepping promise, under progress values that follow the run's
/// discipline. A run with any epochs at all takes at least one step and
/// walks the epochs from the first to the last; epochs end exactly on a
/// done report (or the step counter's cutoff), the final one included.
pub open spec fn run_trace<S, A, E: Environment<S, A>, AG: Agent<S, A, E>>(
    pre: AG,
    post: AG,
    states: Seq<AG>,
    progs: Seq<Progress>,
    dones: Seq<bool>,
    epochs: usize,
) -> bool {
    &&& states.len() == progs.len() + 1
    &&& dones.len() == progs.len()
    &&& states[0] == pre
    &&& states.last() == post
    &&& forall|i: int|
        0 <= i < progs.len() ==> AG::step_ens(states[i], states[i + 1], #[trigger] progs[i],
        dones[i])
    &&& progress_discipline(progs, epochs)
    &&& epochs_end_on_done(progs, dones)
    &&& epochs > 0 ==> progs.len() > 0 && progs.last().epoch == epochs
    &&& progs.len() > 0 ==> dones.last() || progs.last().epoch_step == usize::MAX
}

/// Drives a whole training run.
pub struct Runner;

impl Runner {
    /// Runs `epochs` epochs: each resets the environment, then steps the
    /// agent — advancing the progress counters first — until the agent
    /// reports the epoch done. The run as a whole is a [`run_trace`]:
    /// every change to the agent is one of its own steps, and the
    /// progress values handed out follow the run's discipline. With no
    /// epochs asked for, nothing is touched at all. The in-epoch step
    /// counter never resets within an epoch, so an epoch that somehow
    /// outlived the counter's range would be cut off there; in practice
    /// the environment's own stopping test ends every epoch long before.
    pub fn run<S, A, E: Environment<S, A>, AG: Agent<S, A, E>>(
        agent: &mut AG,
        environment: &mut E,
        epochs: usize,
    )
        requires
            old(agent).wf(),
            epochs < usize::MAX,
        ensures
            final(agent).wf(),
            epochs == 0 ==> *final(agent) == *old(agent) && *final(environment) == *old(
                environment,
            ),
            exists|states: Seq<AG>, progs: Seq<Progress>, dones: Seq<bool>|
                run_trace(*old(agent), *final(agent), states, progs, dones, epochs),
    {
        let mut progress = Progress::start();
        let ghost mut states: Seq<AG> = seq![*old(agent)];
        let ghost mut progs: Seq<Progress> = Seq::empty();
        let ghost mut dones: Seq<bool> = Seq::empty();
        let mut epoch: usize = 1;
        while epoch <= epochs
            invariant
                agent.wf(),
                epochs < usize::MAX,
                1 <= epoch <= epochs + 1,
                states.len() == progs.len() + 1,
                dones.len() == progs.len(),
                states[0] == *old(agent),
                states.last() == *agent,
                forall|i: int|
                    0 <= i < progs.len() ==> AG::step_ens(states[i], states[i + 1],
                    #[trigger] progs[i], dones[i]),
                progress_discipline(progs, epochs),
                epochs_end_on_done(progs, dones),
                progs.len() == 0 ==> epoch == 1 && progress.cumulative_steps == 0,
                progs.len() > 0 ==> progs.last().epoch + 1 == epoch
                    && progs.last().cumulative_steps == progress.cumulative_steps,
                progs.len() > 0 ==> dones.last() || progs.last().epoch_step == usize::MAX,
                epochs == 0 ==> *agent == *old(agent) && *environment == *old(environment),
            decreases epochs + 1 - epoch,
        {
            environment.reset(epoch);
            progress.epoch_step = 0;
            let mut done = false;
            while !done
                invariant
                    agent.wf(),
                    1 <= epoch <= epochs,
                    states.len() == progs.len() + 1,
                    dones.len() == progs.len(),
                    states[0] == *old(agent),
                    states.last() == *agent,
                    forall|i: int|
                        0 <= i < progs.len() ==> AG::step_ens(states[i], states[i + 1],
                        #[trigger] progs[i], dones[i]),
                    progress_discipline(progs, epochs),
                    epochs_end_on_done(progs, dones),
                    progs.len() == 0 ==> epoch == 1 && progress.epoch_step == 0
                        && progress.cumulative_steps == 0,
                    progs.len() > 0 ==> progs.last().cumulative_steps == progress.cumulative_steps
                        && ((progs.last().epoch == epoch && progs.last().epoch_step
                        == progress.epoch_step && dones.last() == done) || (progs.last().epoch + 1
                        == epoch && progress.epoch_step == 0 && (dones.last()
                        || progs.last().epoch_step == usize::MAX))),
                    done ==> progs.len() > 0 && progs.last() == progress && progress.epoch == epoch
                        && dones.last(),
                ensures
                    agent.wf(),
                    states.len() == progs.len() + 1,
                    dones.len() == progs.len(),
                    states[0] == *old(agent),
                    states.last() == *agent,
                    forall|i: int|
                        0 <= i < progs.len() ==> AG::step_ens(states[i], states[i + 1],
                        #[trigger] progs[i], dones[i]),
                    progress_discipline(progs, epochs),
                    epochs_end_on_done(progs, dones),
                    progs.len() > 0,
                    progs.last().epoch == epoch,
                    progs.last().epoch_step == progress.epoch_step,
                    progs.last().cumulative_steps == progress.cumulative_steps,
                    dones.last() == done,
                    done || progress.epoch_step == usize::MAX,
                decreases usize::MAX - progress.epoch_step,
            {
                if progress.epoch_step == usize::MAX {
                    break;
                }
                let ghost before = *agent;
                let ghost states0 = states;
                let ghost progs0 = progs;
                let ghost dones0 = dones;
                progress.advance(epoch);
                done = agent.step(progress, environment);
                proof {
                    states = states.push(*agent);
                    progs = progs.push(progress);
                    dones = dones.push(done);
                    assert forall|i: int|
                        0 <= i < progs.len() implies AG::step_ens(states[i], states[i + 1],
                        #[trigger] progs[i], dones[i]) by {
                        if i < progs0.len() {
                            assert(AG::step_ens(states0[i], states0[i + 1], progs0[i], dones0[i]));
                        } else {
                            assert(states[i] == before && states[i + 1] == *agent);
                        }
                    }
                    assert forall|i: int|
                        0 <= i < progs.len() implies 1 <= (#[trigger] progs[i]).epoch <= epochs
                        && progs[i].epoch_step >= 1 by {
                        if i < progs0.len() {
                            assert(1 <= progs0[i].epoch <= epochs && progs0[i].epoch_step >= 1);
                        }
                    }
                    assert forall|i: int|
                        0 < i < progs.len() implies progress_follows(progs[i - 1],
                        #[trigger] progs[i]) by {
                        if i < progs0.len() {
                            assert(progress_follows(progs0[i - 1], progs0[i]));
                        } else {
                            assert(progs[i - 1] == progs0.last() && progs[i] == progress);
                        }
                    }
                    assert(progress_discipline(progs, epochs));
                    assert forall|i: int|
                        0 <= i < progs.len() - 1 implies (dones[i] ==> progs[i + 1].epoch == (
                        #[trigger] progs[i]).epoch + 1) by {
                        if i < progs0.len() - 1 {
                            assert(dones0[i] ==> progs0[i + 1].epoch == progs0[i].epoch + 1);
                        } else {
                            assert(progs[i] == progs0.last() && dones[i] == dones0.last()
                                && progs[i + 1] == progress);
                        }
                    }
                    assert forall|i: int|
                        0 <= i < progs.len() - 1 implies (progs[i + 1].epoch != (
                        #[trigger] progs[i]).epoch ==> dones[i] || progs[i].epoch_step
                        == usize::MAX) by {
                        if i < progs0.len() - 1 {
                            assert(progs0[i + 1].epoch != progs0[i].epoch ==> dones0[i]
                                || progs0[i].epoch_step == usize::MAX);
                        } else {
                            assert(progs[i] == progs0.last() && dones[i] == dones0.last()
                                && progs[i + 1] == progress);
                        }
                    }
                    assert(epochs_end_on_done(progs, dones));
                }
            }
            epoch = epoch + 1;
        }
        proof {
            assert(run_trace(*old(agent), *agent, states, progs, dones, epochs));
        }
    }
}

/// Presentation pacing for a display-enabled run; purely a viewing
/// concern, consumed by whatever drives the display.
pub struct DisplayConfig {
    /// How many frames to show per second.
    pub fps: usize,
    /// Slow each step down by at least this long, in milliseconds; zero
    /// for no slowdown. Useful to watch the learning.
    pub step_time_ms: u64,
    /// The epoch from which the slowdown applies.
    pub step_time_start: usize,
}

impl DisplayConfig {
    /// Whether a new frame is due, given the nanoseconds elapsed since
    /// the last one: they have reached one frame's share of a second. A
    /// zero rate asks for one frame every infinitely many seconds, so
    /// nothing is ever due.
    pub fn frame_due(&self, elapsed_ns: u64) -> (r: bool)
        ensures
            self.fps == 0 ==> !r,
            self.fps != 0 ==> r == (elapsed_ns >= 1_000_000_000u64 / (self.fps as u64)),
    {
        if self.fps == 0 {
            false
        } else {
            elapsed_ns >= 1_000_000_000u64 / (self.fps as u64)
        }
    }

    /// Whether the configured per-step slowdown applies at this epoch.
    pub fn slowdown_applies(&self, epoch: usize) -> (r: bool)
        ensures
            r == (epoch > self.step_time_start && self.step_time_ms > 0),
    {
        epoch > self.step_time_start && self.step_time_ms > 0
    }
}

impl Default for DisplayConfig {
    /// Ten frames a second, no slowdown.
    fn default() -> (c: Self)
        ensures
            c == (DisplayConfig { fps: 10, step_time_ms: 0, step_time_start: 0 }),
    {
        DisplayConfig { fps: 10, step_time_ms: 0, step_time_start: 0 }
    }
}

} // verus!
