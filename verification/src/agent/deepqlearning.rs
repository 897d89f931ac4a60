//! The deep Q-learning agent: an online network picks actions, a bounded
//! replay history feeds its training, and a periodically synchronized
//! target network keeps the training targets stable.

use super::Agent;
use super::nnbackend::NNBackend;
use crate::environment::Environment;
use crate::fixed::{SCALE, div_scale, sat64};
use crate::progress::Progress;
use crate::rng::{rng_new, rng_usize_below, rng_with_seed};
use crate::strategy::ExploreStrategy;
use vstd::prelude::*;

verus! {

/// One observed transition: the feature vectors before and after acting,
/// the index of the action taken, the reward, and whether the epoch ended.
pub struct Replay {
    pub state: Vec<i64>,
    pub action_index: usize,
    pub next_state: Vec<i64>,
    pub reward: i64,
    pub done: bool,
}

/// A bounded history of transitions: pushed at the back, and once the
/// bound is exceeded the oldest entry leaves at the front.
pub struct ReplayBuffer {
    pub items: Vec<Replay>,
}

impl View for ReplayBuffer {
    type V = Seq<Replay>;

    open spec fn view(&self) -> Seq<Replay> {
        self.items@
    }
}

/// One bounded push: the entry goes to the back, and when that leaves
/// more than `cap` entries the front one is evicted.
pub open spec fn buf_push(s: Seq<Replay>, e: Replay, cap: usize) -> Seq<Replay> {
    if s.len() + 1 > cap {
        s.push(e).drop_first()
    } else {
        s.push(e)
    }
}

/// Bounded pushes, folded over a sequence of entries, oldest first.
pub open spec fn buf_push_all(s: Seq<Replay>, es: Seq<Replay>, cap: usize) -> Seq<Replay>
    decreases es.len(),
{
    if es.len() == 0 {
        s
    } else {
        buf_push_all(buf_push(s, es[0], cap), es.drop_first(), cap)
    }
}

/// A buffer within its bound stays a sliding window: pushing any run of
/// entries leaves exactly the newest `cap` of what has ever been pushed
/// (or everything, while that still fits).
pub proof fn lemma_buf_push_all_window(s: Seq<Replay>, es: Seq<Replay>, cap: usize)
    requires
        s.len() <= cap,
    ensures
        buf_push_all(s, es, cap) == (s + es).skip(
            if s.len() + es.len() <= cap {
                0int
            } else {
                s.len() + es.len() - cap
            },
        ),
    decreases es.len(),
{
    if es.len() == 0 {
        assert((s + es).skip(0) =~= s);
    } else {
        let s1 = buf_push(s, es[0], cap);
        lemma_buf_push_all_window(s1, es.drop_first(), cap);
        if s.len() + 1 > cap {
            assert(s1 + es.drop_first() =~= (s + es).skip(1));
            assert(buf_push_all(s, es, cap) == buf_push_all(s1, es.drop_first(), cap));
            if s1.len() + es.len() - 1 <= cap {
                assert((s1 + es.drop_first()).skip(0) =~= (s + es).skip(1));
            } else {
                assert((s1 + es.drop_first()).skip(s1.len() + (es.len() - 1) - cap) =~= (s
                    + es).skip(s.len() + es.len() - cap));
            }
        } else {
            assert(s1 + es.drop_first() =~= s + es);
        }
    }
}

/// The FIFO bound: filling an empty buffer with one entry more than its
/// bound holds leaves exactly `cap` entries — the very first pushed entry
/// is gone, and the newest is at the back.
pub proof fn lemma_replay_fifo(es: Seq<Replay>, cap: usize)
    requires
        es.len() == cap + 1,
    ensures
        buf_push_all(Seq::empty(), es, cap).len() == cap,
        buf_push_all(Seq::empty(), es, cap) == es.drop_first(),
        cap > 0 ==> buf_push_all(Seq::empty(), es, cap).last() == es.last(),
{
    lemma_buf_push_all_window(Seq::empty(), es, cap);
    assert((Seq::<Replay>::empty() + es).skip(1) =~= es.drop_first());
}

impl ReplayBuffer {
    /// An empty history.
    pub fn new() -> (b: Self)
        ensures
            b@.len() == 0,
    {
        ReplayBuffer { items: Vec::new() }
    }

    /// How many transitions are held.
    pub fn len(&self) -> (n: usize)
        ensures
            n == self@.len(),
    {
        self.items.len()
    }

    /// The transition at the given position, oldest first.
    pub fn get(&self, i: usize) -> (e: &Replay)
        requires
            i < self@.len(),
        ensures
            *e == self@[i as int],
    {
        &self.items[i]
    }

    /// One bounded push, exactly as [`buf_push`] states it.
    pub fn push(&mut self, e: Replay, cap: usize)
        ensures
            final(self)@ == buf_push(old(self)@, e, cap),
    {
        let ghost before = self@;
        self.items.push(e);
        if self.items.len() > cap {
            self.items.remove(0);
            proof {
                assert(self@ =~= buf_push(before, e, cap));
            }
        }
    }
}

/// What shapes a deep agent: the backend's step size and batching, the
/// training and synchronization cadences, how many samples each training
/// call draws (also the fill needed before training starts), the damping
/// of the temporal-difference step, the discount, and the history bound.
#[derive(Clone, Copy)]
pub struct DeepQLearningConfig {
    /// Step size handed to the backend, a fixed-point rate.
    pub nn_learning_rate: i64,
    /// Batching granularity handed to the backend's `fit`.
    pub nn_batch_size: usize,
    /// Train once every this many cumulative steps.
    pub train_steps: usize,
    /// Synchronize the target network every this many cumulative steps.
    pub copy_nn_steps: usize,
    /// Samples drawn per training call, and the fill that training waits
    /// for.
    pub replay_size: usize,
    /// Damping of the temporal-difference step, a fixed-point rate;
    /// distinct from the backend's own step size.
    pub q_learning_rate: i64,
    /// The discount ratio, a fixed-point rate.
    pub discount: i64,
    /// How many transitions the history holds before evicting.
    pub history_size: usize,
}

/// Cadences are at least one step (a zero cadence could never fire), and
/// the two rates are rates.
pub open spec fn config_wf(c: DeepQLearningConfig) -> bool {
    &&& c.train_steps >= 1
    &&& c.copy_nn_steps >= 1
    &&& 0 <= c.q_learning_rate <= SCALE
    &&& 0 <= c.discount <= SCALE
}

impl Default for DeepQLearningConfig {
    /// The stock configuration.
    fn default() -> (c: Self)
        ensures
            c == (DeepQLearningConfig {
                nn_learning_rate: 10_000,
                nn_batch_size: 16,
                train_steps: 10,
                copy_nn_steps: 80,
                replay_size: 64,
                q_learning_rate: 100_000,
                discount: 900_000,
                history_size: 10_000,
            }),
            config_wf(c),
    {
        DeepQLearningConfig {
            nn_learning_rate: 10_000,
            nn_batch_size: 16,
            train_steps: 10,
            copy_nn_steps: 80,
            replay_size: 64,
            q_learning_rate: 100_000,
            discount: 900_000,
            history_size: 10_000,
        }
    }
}

/// An owned copy of a feature vector.
fn copy_features(v: &Vec<i64>) -> (r: Vec<i64>)
    ensures
        r@ == v@,
{
    let mut r: Vec<i64> = Vec::new();
    let mut i: usize = 0;
    while i < v.len()
        invariant
            i <= v@.len(),
            r@ =~= v@.take(i as int),
        decreases v@.len() - i,
    {
        r.push(v[i]);
        i = i + 1;
    }
    proof {
        assert(v@.take(v@.len() as int) =~= v@);
    }
    r
}

/// The feature vector an image flattens to: each byte as a fixed-point
/// value.
pub open spec fn features_of(image: Seq<u8>) -> Seq<i64> {
    image.map_values(|b: u8| ((b as int) * (SCALE as int)) as i64)
}

/// Turns an image into its feature vector, exactly as [`features_of`]
/// states it.
fn image_features(image: &Vec<u8>) -> (f: Vec<i64>)
    ensures
        f@ == features_of(image@),
{
    let mut f: Vec<i64> = Vec::new();
    let mut i: usize = 0;
    while i < image.len()
        invariant
            i <= image@.len(),
            f@.len() == i,
            forall|j: int| 0 <= j < i ==> f@[j] == ((image@[j] as int) * (SCALE as int)) as i64,
        decreases image@.len() - i,
    {
        f.push((image[i] as i64) * SCALE);
        i = i + 1;
    }
    proof {
        assert(f@ =~= features_of(image@));
    }
    f
}

/// The largest element of a sequence of outputs, zero when there are none
/// (a missing output contributes nothing to a training target).
pub open spec fn max_seq(s: Seq<i64>) -> int
    decreases s.len(),
{
    if s.len() == 0 {
        0
    } else if s.len() == 1 {
        s[0] as int
    } else {
        let rest = max_seq(s.drop_first());
        if s[0] >= rest {
            s[0] as int
        } else {
            rest
        }
    }
}

/// The largest element, exactly as [`max_seq`] states it.
fn max_of(v: &Vec<i64>) -> (m: i64)
    ensures
        m == max_seq(v@),
{
    if v.len() == 0 {
        return 0;
    }
    let mut i = v.len() - 1;
    let mut acc = v[i];
    while i > 0
        invariant
            i < v@.len(),
            acc == max_seq(v@.skip(i as int)),
        decreases i,
    {
        i = i - 1;
        let x = v[i];
        if x >= acc {
            acc = x;
        }
        proof {
            let t = v@.skip(i as int);
            assert(t.drop_first() =~= v@.skip(i as int + 1));
            assert(t[0] == v@[i as int]);
        }
    }
    proof {
        assert(v@.skip(0) =~= v@);
    }
    acc
}

/// The earliest index holding the largest element, if any.
pub open spec fn argmax_seq(s: Seq<i64>) -> Option<int>
    decreases s.len(),
{
    if s.len() == 0 {
        None
    } else if s.len() == 1 {
        Some(0int)
    } else {
        match argmax_seq(s.drop_first()) {
            Some(j) => if s[0] >= s[j + 1] {
                Some(0int)
            } else {
                Some(j + 1)
            },
            None => Some(0int),
        }
    }
}

/// The earliest index of the largest element, exactly as [`argmax_seq`]
/// states it.
fn argmax_of(v: &Vec<i64>) -> (r: Option<usize>)
    ensures
        match r {
            Some(i) => i < v@.len() && argmax_seq(v@) == Some(i as int),
            None => v@.len() == 0,
        },
{
    if v.len() == 0 {
        return None;
    }
    let mut i = v.len() - 1;
    let mut bi = i;
    while i > 0
        invariant
            i < v@.len(),
            i <= bi < v@.len(),
            argmax_seq(v@.skip(i as int)) == Some(bi - i),
        decreases i,
    {
        i = i - 1;
        if v[i] >= v[bi] {
            bi = i;
        }
        proof {
            let t = v@.skip(i as int);
            assert(t.drop_first() =~= v@.skip(i as int + 1));
            assert(t[0] == v@[i as int]);
        }
    }
    proof {
        assert(v@.skip(0) =~= v@);
    }
    Some(bi)
}

/// The training row one sampled transition yields. The target is the
/// reward plus the discounted best output of the target network at the
/// successor (zero when the transition ended the epoch, or when that
/// network answers nothing); the row is the online network's own output
/// with the taken action's entry moved towards the target, damped by the
/// temporal-difference rate. An action index off the end of the output
/// leaves the row as predicted.
pub open spec fn train_row<NB: NNBackend>(
    model_online: Seq<i64>,
    model_target: Seq<i64>,
    e: Replay,
    discount: i64,
    qlr: i64,
) -> Seq<i64> {
    let next_reward = if e.done {
        0int
    } else {
        max_seq(NB::eval(model_target, e.next_state@))
    };
    let target = sat64(e.reward + div_scale((discount as int) * next_reward));
    let predicted = NB::eval(model_online, e.state@);
    if e.action_index < predicted.len() {
        let oldr = predicted[e.action_index as int] as int;
        let change = div_scale((qlr as int) * (target - oldr));
        predicted.update(e.action_index as int, sat64(oldr + change) as i64)
    } else {
        predicted
    }
}

/// A function-approximation agent: an online network `nn` makes the
/// predictions, `nn_target` is its periodically synchronized copy used
/// for stable training targets, and `history` holds the transitions that
/// training samples from.
pub struct DeepQLearning<NB, ST> {
    pub nn: NB,
    pub nn_target: NB,
    pub config: DeepQLearningConfig,
    pub strategy: ST,
    pub history: ReplayBuffer,
    pub rng: fastrand::Rng,
}

impl<NB: NNBackend, ST: ExploreStrategy> DeepQLearning<NB, ST> {
    /// The configuration is sound; see [`config_wf`].
    pub open spec fn well_formed(&self) -> bool {
        config_wf(self.config)
    }

    /// An agent whose two networks are built by the given factory from
    /// the layer shape and the backend step size, and start synchronized.
    /// The environment is probed once — reset, then the image length for
    /// the input layer and the action count for the output layer; the
    /// shape handed to the factory is that input length, the hidden layer
    /// sizes in order, and that action count (the two probed lengths are
    /// the environment's answers, so only their places in the shape can
    /// be stated). Replay sampling draws from an entropy-seeded
    /// generator; see [`Self::with_seed`] for a reproducible one.
    pub fn new<S, A, E: Environment<S, A>, F: Fn(&Vec<usize>, i64) -> NB>(
        nnf: F,
        hidden_sizes: &Vec<usize>,
        config: DeepQLearningConfig,
        strategy: ST,
        env: &mut E,
    ) -> (agent: Self)
        requires
            config_wf(config),
            forall|shape: &Vec<usize>, lr: i64| #[trigger] call_requires(nnf, (shape, lr)),
        ensures
            agent.well_formed(),
            agent.config == config,
            agent.strategy == strategy,
            agent.history@.len() == 0,
            agent.nn_target.model() == agent.nn.model(),
            exists|shape: &Vec<usize>|
                shape@.len() == hidden_sizes@.len() + 2 && shape@.subrange(
                    1,
                    shape@.len() - 1,
                ) == hidden_sizes@ && #[trigger] call_ensures(
                    nnf,
                    (shape, config.nn_learning_rate),
                    agent.nn,
                ),
    {
        Self::construct(nnf, hidden_sizes, config, strategy, env, rng_new())
    }

    /// The same agent, with replay sampling drawn from a generator in
    /// the state the seed determines, so a run can be reproduced.
    pub fn with_seed<S, A, E: Environment<S, A>, F: Fn(&Vec<usize>, i64) -> NB>(
        nnf: F,
        hidden_sizes: &Vec<usize>,
        config: DeepQLearningConfig,
        strategy: ST,
        env: &mut E,
        seed: u64,
    ) -> (agent: Self)
        requires
            config_wf(config),
            forall|shape: &Vec<usize>, lr: i64| #[trigger] call_requires(nnf, (shape, lr)),
        ensures
            agent.well_formed(),
            agent.config == config,
            agent.strategy == strategy,
            agent.history@.len() == 0,
            agent.nn_target.model() == agent.nn.model(),
            exists|shape: &Vec<usize>|
                shape@.len() == hidden_sizes@.len() + 2 && shape@.subrange(
                    1,
                    shape@.len() - 1,
                ) == hidden_sizes@ && #[trigger] call_ensures(
                    nnf,
                    (shape, config.nn_learning_rate),
                    agent.nn,
                ),
    {
        Self::construct(nnf, hidden_sizes, config, strategy, env, rng_with_seed(seed))
    }

    /// Probes the environment, builds and synchronizes the two networks,
    /// and assembles the agent around the given generator.
    fn construct<S, A, E: Environment<S, A>, F: Fn(&Vec<usize>, i64) -> NB>(
        nnf: F,
        hidden_sizes: &Vec<usize>,
        config: DeepQLearningConfig,
        strategy: ST,
        env: &mut E,
        rng: fastrand::Rng,
    ) -> (agent: Self)
        requires
            config_wf(config),
            forall|shape: &Vec<usize>, lr: i64| #[trigger] call_requires(nnf, (shape, lr)),
        ensures
            agent.well_formed(),
            agent.config == config,
            agent.strategy == strategy,
            agent.history@.len() == 0,
            agent.nn_target.model() == agent.nn.model(),
            exists|shape: &Vec<usize>|
                shape@.len() == hidden_sizes@.len() + 2 && shape@.subrange(
                    1,
                    shape@.len() - 1,
                ) == hidden_sizes@ && #[trigger] call_ensures(
                    nnf,
                    (shape, config.nn_learning_rate),
                    agent.nn,
                ),
    {
        env.reset(1);
        let image = env.get_image();
        let input_size = image.len();
        let action_count = env.all_actions().len();

        let mut shape: Vec<usize> = Vec::new();
        shape.push(input_size);
        let mut i: usize = 0;
        while i < hidden_sizes.len()
            invariant
                i <= hidden_sizes@.len(),
                shape@ == seq![input_size] + hidden_sizes@.take(i as int),
            decreases hidden_sizes@.len() - i,
        {
            shape.push(hidden_sizes[i]);
            i = i + 1;
            proof {
                assert(shape@ =~= seq![input_size] + hidden_sizes@.take(i as int));
            }
        }
        shape.push(action_count);
        proof {
            assert(hidden_sizes@.take(hidden_sizes@.len() as int) =~= hidden_sizes@);
            assert(shape@.subrange(1, shape@.len() - 1) =~= hidden_sizes@);
        }

        let nn = nnf(&shape, config.nn_learning_rate);
        let mut nn_target = nnf(&shape, config.nn_learning_rate);
        nn_target.update_from(&nn);

        let agent = DeepQLearning {
            nn,
            nn_target,
            config,
            strategy,
            history: ReplayBuffer::new(),
            rng,
        };
        proof {
            assert(call_ensures(nnf, (&shape, config.nn_learning_rate), agent.nn));
        }
        agent
    }

    /// The best index handed to the strategy: the online network's
    /// earliest maximal output on the given features, dropped when it
    /// falls outside the action list or the network answers nothing.
    pub open spec fn deep_best(model: Seq<i64>, features: Seq<i64>, n_actions: usize) -> Option<
        usize,
    > {
        match argmax_seq(NB::eval(model, features)) {
            Some(i) => if i < n_actions {
                Some(i as usize)
            } else {
                None
            },
            None => None,
        }
    }

    /// The index the online network rates best on these features: the
    /// earliest maximal output. Only the network's learning state is
    /// read; nothing of the agent changes but the evaluation pass itself.
    fn best_action_index(&mut self, features: &Vec<i64>) -> (r: Option<usize>)
        ensures
            final(self).nn.model() == old(self).nn.model(),
            final(self).nn_target == old(self).nn_target,
            final(self).config == old(self).config,
            final(self).strategy == old(self).strategy,
            final(self).history == old(self).history,
            final(self).rng == old(self).rng,
            match r {
                Some(i) => argmax_seq(NB::eval(old(self).nn.model(), features@)) == Some(i as int),
                None => NB::eval(old(self).nn.model(), features@).len() == 0,
            },
    {
        let out = self.nn.forward(features);
        argmax_of(&out)
    }

    /// Whether `(input, output)` is the training pair some transition in
    /// `pre`'s history yields: the transition's pre-action features, and
    /// the row [`train_row`] builds for it under `pre`'s networks.
    pub open spec fn sampled_row(pre: Self, input: Seq<i64>, output: Seq<i64>) -> bool {
        exists|j: int|
            0 <= j < pre.history@.len() && input == pre.history@[j].state@ && output
                == train_row::<NB>(
                pre.nn.model(),
                pre.nn_target.model(),
                pre.history@[j],
                pre.config.discount,
                pre.config.q_learning_rate,
            )
    }

    /// Draws `replay_size` transitions from the history, uniformly and
    /// with replacement, and builds the training batch: each input row is
    /// a sampled transition's pre-action features, each output row the
    /// one [`train_row`] builds for it. Both networks' learning state and
    /// everything else of the agent are left as they were (only the
    /// generator has moved).
    fn get_training(&mut self) -> (batch: (Vec<Vec<i64>>, Vec<Vec<i64>>))
        requires
            old(self).well_formed(),
            old(self).history@.len() > 0 || old(self).config.replay_size == 0,
        ensures
            final(self).well_formed(),
            final(self).nn.model() == old(self).nn.model(),
            final(self).nn_target.model() == old(self).nn_target.model(),
            final(self).config == old(self).config,
            final(self).strategy == old(self).strategy,
            final(self).history == old(self).history,
            batch.0@.len() == old(self).config.replay_size,
            batch.1@.len() == old(self).config.replay_size,
            forall|k: int|
                0 <= k < old(self).config.replay_size ==> #[trigger] Self::sampled_row(
                    *old(self),
                    batch.0@[k]@,
                    batch.1@[k]@,
                ),
    {
        let ghost pre = *old(self);
        let replay_size = self.config.replay_size;
        let mut batch_inputs: Vec<Vec<i64>> = Vec::new();
        let mut batch_outputs: Vec<Vec<i64>> = Vec::new();
        let mut k: usize = 0;
        while k < replay_size
            invariant
                self.well_formed(),
                replay_size == pre.config.replay_size,
                pre.history@.len() > 0 || replay_size == 0,
                self.nn.model() == pre.nn.model(),
                self.nn_target.model() == pre.nn_target.model(),
                self.config == pre.config,
                self.strategy == pre.strategy,
                self.history == pre.history,
                k <= replay_size,
                batch_inputs@.len() == k,
                batch_outputs@.len() == k,
                forall|q: int|
                    0 <= q < k ==> #[trigger] Self::sampled_row(
                        pre,
                        batch_inputs@[q]@,
                        batch_outputs@[q]@,
                    ),
            decreases replay_size - k,
        {
            let n = self.history.len();
            let j = rng_usize_below(&mut self.rng, n);
            let e = self.history.get(j);

            let next_reward: i64 = if e.done {
                0
            } else {
                let out = self.nn_target.forward(&e.next_state);
                max_of(&out)
            };

            let target: i64 = crate::fixed::sat_to_i64(
                (e.reward as i128) + crate::fixed::rate_times(
                    self.config.discount,
                    next_reward as i128,
                ),
            );

            let mut predicted = self.nn.forward(&e.state);
            if e.action_index < predicted.len() {
                let oldr = predicted[e.action_index];
                let change = crate::fixed::rate_times(
                    self.config.q_learning_rate,
                    (target as i128) - (oldr as i128),
                );
                let newv = crate::fixed::sat_to_i64((oldr as i128) + change);
                predicted[e.action_index] = newv;
            }

            let input = copy_features(&e.state);
            let ghost row_in = input@;
            let ghost row_out = predicted@;
            let ghost in0 = batch_inputs@;
            let ghost out0 = batch_outputs@;
            proof {
                assert(row_in == pre.history@[j as int].state@);
                assert(row_out == train_row::<NB>(
                    pre.nn.model(),
                    pre.nn_target.model(),
                    pre.history@[j as int],
                    pre.config.discount,
                    pre.config.q_learning_rate,
                ));
                assert(Self::sampled_row(pre, row_in, row_out));
            }
            batch_inputs.push(input);
            batch_outputs.push(predicted);
            proof {
                assert forall|q: int| 0 <= q < k + 1 implies #[trigger] Self::sampled_row(
                    pre,
                    batch_inputs@[q]@,
                    batch_outputs@[q]@,
                ) by {
                    if q < k {
                        assert(batch_inputs@[q] == in0[q]);
                        assert(batch_outputs@[q] == out0[q]);
                        assert(Self::sampled_row(pre, in0[q]@, out0[q]@));
                    } else {
                        assert(batch_inputs@[q]@ == row_in);
                        assert(batch_outputs@[q]@ == row_out);
                    }
                }
            }
            k = k + 1;
        }
        (batch_inputs, batch_outputs)
    }

    /// Trains the online network on one sampled batch; a history shorter
    /// than `replay_size` skips the cycle entirely. The target network's
    /// learning state, the history and the configuration never move.
    pub fn train_nn(&mut self)
        requires
            old(self).well_formed(),
        ensures
            final(self).well_formed(),
            final(self).nn_target.model() == old(self).nn_target.model(),
            final(self).config == old(self).config,
            final(self).strategy == old(self).strategy,
            final(self).history == old(self).history,
            old(self).history@.len() < old(self).config.replay_size ==> *final(self) == *old(self),
    {
        if self.history.len() < self.config.replay_size {
            return;
        }
        let (batch_inputs, batch_outputs) = self.get_training();
        let batch_size = self.config.nn_batch_size;
        self.nn.fit(&batch_inputs, &batch_outputs, batch_size);
    }

    /// One step, from an already-read action list: with no legal action
    /// the epoch ends and nothing changes. Otherwise one transition is
    /// observed and pushed (bounded) onto the history, the online network
    /// is trained on the training cadence, and on the synchronization
    /// cadence the target network becomes a copy of the online one — in
    /// between, its learning state does not move.
    pub fn step_with<S, A, E: Environment<S, A>>(
        &mut self,
        actions: &Vec<A>,
        progress: Progress,
        env: &mut E,
    ) -> (done: bool)
        requires
            old(self).well_formed(),
        ensures
            final(self).well_formed(),
            final(self).config == old(self).config,
            actions@.len() == 0 ==> done && *final(self) == *old(self),
            actions@.len() > 0 ==> {
                &&& exists|e: Replay|
                    e.action_index < actions@.len() && e.done == done && ST::pick_ens(
                        old(self).strategy,
                        final(self).strategy,
                        actions@.len() as usize,
                        Self::deep_best(old(self).nn.model(), e.state@, actions@.len() as usize),
                        progress,
                        e.action_index,
                    ) && #[trigger] final(self).history@ == buf_push(
                        old(self).history@,
                        e,
                        old(self).config.history_size,
                    )
                &&& progress.cumulative_steps % old(self).config.train_steps != 0
                    ==> final(self).nn.model() == old(self).nn.model()
                &&& progress.cumulative_steps % old(self).config.copy_nn_steps == 0
                    ==> final(self).nn_target.model() == final(self).nn.model()
                &&& progress.cumulative_steps % old(self).config.copy_nn_steps != 0
                    ==> final(self).nn_target.model() == old(self).nn_target.model()
            },
    {
        if actions.len() == 0 {
            return true;
        }

        let ghost pre = *old(self);
        let image = env.get_image();
        let features = image_features(&image);
        let best: Option<usize> = match self.best_action_index(&features) {
            Some(i) => if i < actions.len() {
                Some(i)
            } else {
                None
            },
            None => None,
        };
        proof {
            assert(best == Self::deep_best(pre.nn.model(), features@, actions@.len() as usize));
        }
        let idx = self.strategy.pick_action(actions.len(), best, progress);

        let state = features;
        let reward = env.take_action_get_reward(&actions[idx]);
        let done = env.should_stop(progress.epoch_step);
        let image_after = env.get_image();
        let next_state = image_features(&image_after);

        let entry = Replay { state, action_index: idx, next_state, reward, done };
        let ghost ge = entry;
        let cap = self.config.history_size;
        self.history.push(entry, cap);

        if progress.cumulative_steps % self.config.train_steps == 0 {
            self.train_nn();
        }

        if progress.cumulative_steps % self.config.copy_nn_steps == 0 {
            self.nn_target.update_from(&self.nn);
        }

        proof {
            assert(ge.action_index < actions@.len() && ge.done == done && ST::pick_ens(
                pre.strategy,
                self.strategy,
                actions@.len() as usize,
                Self::deep_best(pre.nn.model(), ge.state@, actions@.len() as usize),
                progress,
                ge.action_index,
            ) && self.history@ == buf_push(
                old(self).history@,
                ge,
                old(self).config.history_size,
            ));
        }
        done
    }
}

impl<S, A, E: Environment<S, A>, NB: NNBackend, ST: ExploreStrategy> Agent<S, A, E>
    for DeepQLearning<NB, ST> {
    open spec fn wf(&self) -> bool {
        self.well_formed()
    }

    /// Either nothing at all changed — which only an empty action set
    /// brings about, so the epoch is then over — or one bounded push
    /// reached the history and the target network's learning state moved
    /// only on the synchronization cadence, where it became a copy of
    /// the online network's.
    open spec fn step_ens(pre: Self, post: Self, progress: Progress, done: bool) -> bool {
        &&& post.config == pre.config
        &&& ((post == pre && done) || {
            &&& exists|e: Replay| #[trigger] post.history@ == buf_push(
                pre.history@,
                e,
                pre.config.history_size,
            )
            &&& progress.cumulative_steps % pre.config.copy_nn_steps == 0
                ==> post.nn_target.model() == post.nn.model()
            &&& progress.cumulative_steps % pre.config.copy_nn_steps != 0
                ==> post.nn_target.model() == pre.nn_target.model()
        })
    }

    /// The pick is pure delegation: the networks, the history and the
    /// configuration are untouched, and the index relates to the
    /// strategy's state exactly as the strategy's own promise states.
    open spec fn pick_ens(
        pre: Self,
        post: Self,
        n_actions: usize,
        best: Option<usize>,
        progress: Progress,
        idx: usize,
    ) -> bool {
        &&& post.nn == pre.nn
        &&& post.nn_target == pre.nn_target
        &&& post.config == pre.config
        &&& post.history == pre.history
        &&& post.rng == pre.rng
        &&& ST::pick_ens(pre.strategy, post.strategy, n_actions, best, progress, idx)
    }

    /// Reads the legal actions, then steps; see
    /// [`DeepQLearning::step_with`] for the exact effect.
    fn step(&mut self, progress: Progress, env: &mut E) -> (done: bool) {
        let actions = env.all_actions();
        self.step_with(&actions, progress, env)
    }

    fn pick_action(&mut self, n_actions: usize, best: Option<usize>, progress: Progress) -> (idx:
        usize) {
        self.strategy.pick_action(n_actions, best, progress)
    }
}

} // verus!
