//! The capability a neural-network backend offers to the deep agent.

use vstd::prelude::*;

verus! {

/// A function approximator with mutable learned parameters. A concrete
/// backend lives outside this library; what the deep agent proves rests
/// only on the promises below.
///
/// `model` abstracts the learned parameters, and `eval` is the network's
/// output as a function of those parameters and the input alone. So two
/// backends whose models coincide answer every `forward` alike — which is
/// what makes a periodically synchronized target network meaningful.
pub trait NNBackend: Sized {
    /// An abstraction of the learned parameters.
    spec fn model(&self) -> Seq<i64>;

    /// The network's output on `input` under parameters `model`.
    spec fn eval(model: Seq<i64>, input: Seq<i64>) -> Seq<i64>;

    /// Copies the learned parameters from `other`.
    fn update_from(&mut self, other: &Self)
        ensures
            final(self).model() == other.model(),
    ;

    /// Evaluates the network; learning state is read, not changed.
    fn forward(&mut self, input: &Vec<i64>) -> (out: Vec<i64>)
        ensures
            final(self).model() == old(self).model(),
            out@ == Self::eval(old(self).model(), input@),
    ;

    /// Trains on the batch of (input, target) rows, taking `batch_size`
    /// rows at a time; the parameters move however the backend learns.
    fn fit(&mut self, inputs: &Vec<Vec<i64>>, targets: &Vec<Vec<i64>>, batch_size: usize);
}

/// After a synchronization, the two networks answer any given input
/// alike: this holds for every backend and every input, not just the
/// ones a test happens to try.
pub fn outputs_agree_after_sync<NB: NNBackend>(nn: &mut NB, nn_target: &mut NB, input: &Vec<
    i64,
>) -> (pair: (Vec<i64>, Vec<i64>))
    ensures
        final(nn_target).model() == final(nn).model(),
        pair.0@ == pair.1@,
{
    nn_target.update_from(nn);
    let from_online = nn.forward(input);
    let from_target = nn_target.forward(input);
    (from_online, from_target)
}

/// Training the online network alone leaves the target network's answers
/// exactly as they were, until the next synchronization.
pub fn target_frozen_across_fit<NB: NNBackend>(
    nn: &mut NB,
    nn_target: &mut NB,
    inputs: &Vec<Vec<i64>>,
    targets: &Vec<Vec<i64>>,
    batch_size: usize,
    probe: &Vec<i64>,
) -> (pair: (Vec<i64>, Vec<i64>))
    ensures
        final(nn_target).model() == old(nn_target).model(),
        pair.0@ == pair.1@,
{
    let before = nn_target.forward(probe);
    nn.fit(inputs, targets, batch_size);
    let after = nn_target.forward(probe);
    (before, after)
}

} // verus!
