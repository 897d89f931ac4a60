//! The tabular Q-learning agent: a value table keyed by state and action,
//! moved towards observed reward by the Bellman update.

use super::Agent;
use super::qtable::{QEntry, QTable, best_pair, keys_equal, max_q, q_get, q_set};
use crate::environment::Environment;
use crate::fixed::{SCALE, bellman, bellman_update};
use crate::progress::Progress;
use crate::strategy::ExploreStrategy;
use vstd::laws_eq::obeys_concrete_eq;
use vstd::prelude::*;

verus! {

/// A tabular agent: its Q-table, the learning rate `alpha` and discount
/// ratio `gamma` (both fixed-point rates), and its exploration strategy.
pub struct QLearning<S, A, ST> {
    pub qtable: QTable<S, A>,
    pub alpha: i64,
    pub gamma: i64,
    pub strategy: ST,
}

/// The earliest position of `x` in `s`, if any.
pub open spec fn first_index_of<A>(s: Seq<A>, x: A) -> Option<int>
    decreases s.len(),
{
    if s.len() == 0 {
        None
    } else if s[0] == x {
        Some(0int)
    } else {
        match first_index_of(s.drop_first(), x) {
            Some(i) => Some(i + 1),
            None => None,
        }
    }
}

/// The earliest index in `items` holding `target`, exactly as
/// [`first_index_of`] states it.
fn index_of<A: PartialEq>(items: &Vec<A>, target: &A) -> (r: Option<usize>)
    requires
        obeys_concrete_eq::<A>(),
    ensures
        match r {
            Some(i) => i < items@.len() && first_index_of(items@, *target) == Some(i as int),
            None => first_index_of(items@, *target) is None,
        },
{
    let mut i = items.len();
    let mut found: Option<usize> = None;
    while i > 0
        invariant
            obeys_concrete_eq::<A>(),
            i <= items@.len(),
            match found {
                Some(k) => i <= k < items@.len() && first_index_of(items@.skip(i as int), *target)
                    == Some(k - i),
                None => first_index_of(items@.skip(i as int), *target) is None,
            },
        decreases i,
    {
        i = i - 1;
        if keys_equal(&items[i], target) {
            found = Some(i);
        }
        proof {
            let t = items@.skip(i as int);
            assert(t.drop_first() =~= items@.skip(i as int + 1));
            assert(t[0] == items@[i as int]);
        }
    }
    proof {
        assert(items@.skip(0) =~= items@);
    }
    found
}

impl<S: PartialEq, A: PartialEq, ST: ExploreStrategy> QLearning<S, A, ST> {
    /// Both rates lie in `[0, SCALE]`, and `==` on keys is structural.
    pub open spec fn well_formed(&self) -> bool {
        &&& 0 <= self.alpha <= SCALE
        &&& 0 <= self.gamma <= SCALE
        &&& obeys_concrete_eq::<S>()
        &&& obeys_concrete_eq::<A>()
    }

    /// What one learning step does to a table: the binding for `(s, a)`
    /// moves by the Bellman update towards `reward` plus the discounted
    /// best estimate at the state `ns` the action led to.
    pub open spec fn step_table(
        t: Seq<QEntry<S, A>>,
        s: S,
        a: A,
        reward: i64,
        ns: S,
        alpha: i64,
        gamma: i64,
    ) -> Seq<QEntry<S, A>> {
        q_set(
            t,
            s,
            a,
            bellman(q_get(t, s, a), reward as int, max_q(t, ns), alpha as int, gamma as int) as i64,
        )
    }

    /// The best-known index handed to the strategy: the best binding for
    /// `s` in the table, located in the current action list (absent
    /// bindings, or a best action no longer offered, hand over nothing).
    pub open spec fn best_handed(t: Seq<QEntry<S, A>>, s: S, actions: Seq<A>) -> Option<usize> {
        match best_pair(t, s) {
            None => None,
            Some(p) => match first_index_of(actions, p.0) {
                None => None,
                Some(i) => Some(i as usize),
            },
        }
    }

    /// An agent with an empty table. `alpha` is the learning rate (say
    /// one tenth of `SCALE`) and `gamma` the discount ratio (how much of
    /// the future estimate is kept), both rates in `[0, SCALE]`.
    pub fn new(alpha: i64, gamma: i64, strategy: ST) -> (agent: Self)
        requires
            0 <= alpha <= SCALE,
            0 <= gamma <= SCALE,
            obeys_concrete_eq::<S>(),
            obeys_concrete_eq::<A>(),
        ensures
            agent.well_formed(),
            agent.alpha == alpha,
            agent.gamma == gamma,
            agent.strategy == strategy,
            agent.qtable@.len() == 0,
    {
        QLearning { qtable: QTable::new(), alpha, gamma, strategy }
    }

    /// One learning step, from an already-read state snapshot and action
    /// list: with no legal action the epoch ends and nothing changes;
    /// otherwise the strategy — handed the table's best index as
    /// [`Self::best_handed`] states it — picks the action, and exactly
    /// that binding moves by the Bellman update, with the reward and the
    /// successor state as the environment answered them.
    pub fn step_with<E: Environment<S, A>>(
        &mut self,
        current_state: S,
        actions: Vec<A>,
        progress: Progress,
        env: &mut E,
    ) -> (done: bool)
        requires
            old(self).well_formed(),
        ensures
            final(self).well_formed(),
            final(self).alpha == old(self).alpha,
            final(self).gamma == old(self).gamma,
            actions@.len() == 0 ==> done && *final(self) == *old(self),
            actions@.len() > 0 ==> exists|i: int, reward: i64, ns: S|
                0 <= i < actions@.len() && ST::pick_ens(
                    old(self).strategy,
                    final(self).strategy,
                    actions@.len() as usize,
                    Self::best_handed(old(self).qtable@, current_state, actions@),
                    progress,
                    i as usize,
                ) && final(self).qtable@ == Self::step_table(
                    old(self).qtable@,
                    current_state,
                    actions@[i],
                    reward,
                    ns,
                    old(self).alpha,
                    old(self).gamma,
                ),
    {
        let mut actions = actions;
        let ghost acts0 = actions@;
        if actions.len() == 0 {
            return true;
        }

        let ghost pre = *old(self);
        let best_idx: Option<usize> = match self.qtable.best_for(&current_state) {
            Some(a) => index_of(&actions, a),
            None => None,
        };
        proof {
            assert(best_idx == Self::best_handed(pre.qtable@, current_state, acts0));
        }
        let idx = self.strategy.pick_action(actions.len(), best_idx, progress);

        let oldq = self.qtable.get(&current_state, &actions[idx]);
        let reward = env.take_action_get_reward(&actions[idx]);
        let new_state = env.state();
        let done = env.should_stop(progress.epoch_step);
        let maxq = self.qtable.max_for(&new_state);

        let newq = bellman_update(oldq, reward, maxq, self.alpha, self.gamma);
        let ghost chosen: int = idx as int;
        let action = actions.remove(idx);
        self.qtable.set(current_state, action, newq);
        proof {
            assert(ST::pick_ens(
                pre.strategy,
                self.strategy,
                acts0.len() as usize,
                Self::best_handed(pre.qtable@, current_state, acts0),
                progress,
                idx,
            ) && self.qtable@ == Self::step_table(
                pre.qtable@,
                current_state,
                acts0[chosen],
                reward,
                new_state,
                pre.alpha,
                pre.gamma,
            ));
        }
        done
    }
}

impl<S: PartialEq, A: PartialEq, E: Environment<S, A>, ST: ExploreStrategy> Agent<S, A, E>
    for QLearning<S, A, ST> {
    open spec fn wf(&self) -> bool {
        self.well_formed()
    }

    /// Either nothing at all changed — which only an empty action set
    /// brings about, so the epoch is then over — or exactly one binding
    /// moved by the Bellman update.
    open spec fn step_ens(pre: Self, post: Self, progress: Progress, done: bool) -> bool {
        &&& post.alpha == pre.alpha
        &&& post.gamma == pre.gamma
        &&& ((post == pre && done) || exists|s: S, a: A, reward: i64, ns: S|
            post.qtable@ == Self::step_table(pre.qtable@, s, a, reward, ns, pre.alpha, pre.gamma))
    }

    /// The pick is pure delegation: the table and both rates are
    /// untouched, and the index relates to the strategy's state exactly
    /// as the strategy's own promise states.
    open spec fn pick_ens(
        pre: Self,
        post: Self,
        n_actions: usize,
        best: Option<usize>,
        progress: Progress,
        idx: usize,
    ) -> bool {
        &&& post.qtable == pre.qtable
        &&& post.alpha == pre.alpha
        &&& post.gamma == pre.gamma
        &&& ST::pick_ens(pre.strategy, post.strategy, n_actions, best, progress, idx)
    }

    /// Reads the current state and the legal actions, then learns one
    /// step; see [`QLearning::step_with`] for the exact effect.
    fn step(&mut self, progress: Progress, env: &mut E) -> (done: bool) {
        let current_state = env.state();
        let actions = env.all_actions();
        let ghost pre = *old(self);
        let ghost acts = actions@;
        let done = self.step_with(current_state, actions, progress, env);
        proof {
            if acts.len() > 0 {
                let (i, reward, ns): (int, i64, S) = choose|i: int, reward: i64, ns: S|
                    0 <= i < acts.len() && ST::pick_ens(
                        pre.strategy,
                        self.strategy,
                        acts.len() as usize,
                        Self::best_handed(pre.qtable@, current_state, acts),
                        progress,
                        i as usize,
                    ) && self.qtable@ == Self::step_table(
                        pre.qtable@,
                        current_state,
                        acts[i],
                        reward,
                        ns,
                        pre.alpha,
                        pre.gamma,
                    );
                assert(self.qtable@ == Self::step_table(
                    pre.qtable@,
                    current_state,
                    acts[i],
                    reward,
                    ns,
                    pre.alpha,
                    pre.gamma,
                ));
            }
        }
        done
    }

    fn pick_action(&mut self, n_actions: usize, best: Option<usize>, progress: Progress) -> (idx:
        usize) {
        self.strategy.pick_action(n_actions, best, progress)
    }
}

} // verus!
