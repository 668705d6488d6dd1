//! Orchestration of the provider pool: a fresh random order per request,
//! fallback from provider to provider, and attribution of successful outputs
//! through the bounded history.
//!
//! The providers themselves are outside capabilities (network services), so a
//! request runs as a small state machine: [`GenerationController::begin_generation`]
//! fixes the order, the driver calls the current provider and reports each
//! failure with [`GenerationRun::report_failure`], and the first success is
//! recorded with [`GenerationController::record_success`].

use vstd::prelude::*;
use rand::seq::SliceRandom;
use crate::common::Model;
use crate::errors::ApiError;
use crate::repo::message_history_storage::{
    push_evict, spec_lookup, HistoryEntry, MessageHistoryStorage,
};

verus! {

/// Relies on rand's `SliceRandom::shuffle` (a Fisher–Yates shuffle drawing
/// from the thread-local generator): it permutes the slice in place.
#[verifier::external_body]
fn shuffle_models(v: &mut Vec<Model>)
    ensures
        final(v)@.to_multiset() == old(v)@.to_multiset(),
        final(v)@.len() == old(v)@.len(),
{
    v.as_mut_slice().shuffle(&mut rand::rng());
}

/// What one whole fallback pass returns, given the order the providers are
/// tried in and the outcome each provider would give for this request: the
/// first success wins, and a pass over failures alone is exhaustion.
pub open spec fn run_result(
    order: Seq<Model>,
    outcome: Map<Model, Option<Seq<char>>>,
) -> Result<(Model, Seq<char>), ApiError>
    decreases order.len(),
{
    if order.len() == 0 {
        Err(ApiError::AllProvidersFailed)
    } else {
        match outcome[order.first()] {
            Some(t) => Ok((order.first(), t)),
            None => run_result(order.skip(1), outcome),
        }
    }
}

/// One in-flight generation request: the randomized order and how far the
/// fallback has advanced through it.
pub struct GenerationRun {
    order: Vec<Model>,
    pos: usize,
}

impl GenerationRun {
    /// The order the providers are tried in.
    pub closed spec fn spec_order(self) -> Seq<Model> {
        self.order@
    }

    /// How many providers have already failed.
    pub closed spec fn spec_pos(self) -> int {
        self.pos as int
    }

    pub closed spec fn wf(self) -> bool {
        self.pos <= self.order.len()
    }

    /// The providers still to be tried, next first.
    pub open spec fn remaining(self) -> Seq<Model> {
        self.spec_order().skip(self.spec_pos())
    }

    /// The provider to try now, or `None` when the pool is exhausted.
    pub fn current_model(&self) -> (r: Option<Model>)
        requires
            self.wf(),
        ensures
            r == (if self.remaining().len() > 0 {
                Some(self.remaining().first())
            } else {
                None::<Model>
            }),
    {
        if self.pos < self.order.len() {
            Some(self.order[self.pos])
        } else {
            None
        }
    }

    /// Advances past the current provider after it failed.
    pub fn report_failure(&mut self)
        requires
            old(self).wf(),
            old(self).remaining().len() > 0,
        ensures
            final(self).wf(),
            final(self).spec_order() == old(self).spec_order(),
            final(self).spec_pos() == old(self).spec_pos() + 1,
            final(self).remaining() == old(self).remaining().skip(1),
    {
        assert(self.spec_order().skip(self.spec_pos() + 1) =~= self.spec_order().skip(
            self.spec_pos(),
        ).skip(1));
        self.pos = self.pos + 1;
    }

    /// The error a run ends with when every provider has failed.
    pub fn exhausted_error(&self) -> (r: ApiError)
        requires
            self.wf(),
            self.remaining().len() == 0,
        ensures
            r == ApiError::AllProvidersFailed,
            Err::<(Model, Seq<char>), ApiError>(r) == run_result(
                self.remaining(),
                Map::<Model, Option<Seq<char>>>::empty(),
            ),
    {
        ApiError::AllProvidersFailed
    }
}

/// The generation controller: the pool of provider identities and the bounded
/// history of successful outputs.
pub struct GenerationController {
    models: Vec<Model>,
    storage: MessageHistoryStorage,
}

impl GenerationController {
    /// The pool.
    pub closed spec fn spec_models(self) -> Seq<Model> {
        self.models@
    }

    /// The recorded history, oldest entry first: provider and text of each
    /// successful generation.
    pub closed spec fn history(self) -> Seq<(Model, Seq<char>)> {
        self.storage.entries()
    }

    pub closed spec fn history_capacity(self) -> nat {
        self.storage.spec_capacity()
    }

    pub closed spec fn wf(self) -> bool {
        self.storage.wf()
    }

    pub fn new(models: Vec<Model>, storage: MessageHistoryStorage) -> (r: Self)
        requires
            storage.wf(),
        ensures
            r.spec_models() == models@,
            r.history() == storage.entries(),
            r.history_capacity() == storage.spec_capacity(),
            r.wf(),
    {
        GenerationController { models, storage }
    }

    /// Starts one generation request: fails with [`ApiError::NoProviders`] on
    /// an empty pool, and otherwise fixes a fresh random permutation of the
    /// pool for this request alone.
    pub fn begin_generation(&self) -> (r: Result<GenerationRun, ApiError>)
        ensures
            match r {
                Ok(run) => {
                    &&& self.spec_models().len() > 0
                    &&& run.wf()
                    &&& run.spec_pos() == 0
                    &&& run.spec_order().to_multiset() == self.spec_models().to_multiset()
                    &&& run.spec_order().len() == self.spec_models().len()
                    &&& run.remaining() == run.spec_order()
                },
                Err(e) => e == ApiError::NoProviders && self.spec_models().len() == 0,
            },
    {
        if self.models.len() == 0 {
            return Err(ApiError::NoProviders);
        }
        let mut order = self.models.clone();
        assert(order@ =~= self.spec_models());
        shuffle_models(&mut order);
        let run = GenerationRun { order, pos: 0 };
        assert(run.remaining() =~= run.spec_order());
        Ok(run)
    }

    /// Records the first success of a run: the provider and its output enter
    /// the history, evicting the oldest entry at capacity.
    pub fn record_success(&mut self, model: Model, output: &str)
        requires
            old(self).wf(),
        ensures
            final(self).wf(),
            final(self).spec_models() == old(self).spec_models(),
            final(self).history_capacity() == old(self).history_capacity(),
            final(self).history() == push_evict(
                old(self).history(),
                (model, output@),
                old(self).history_capacity(),
            ),
    {
        let entry = HistoryEntry::new(model, String::from_str(output));
        self.storage.add_message(entry);
    }

    /// The provider that produced this exact text, if the history still holds
    /// it.
    pub fn get_message_info(&self, text: &str) -> (r: Option<Model>)
        ensures
            r == spec_lookup(self.history(), text@),
    {
        self.storage.get_message_info(text)
    }
}

/// One step of a fallback pass computes `run_result`: a failure of the
/// current provider passes the request on unchanged, and a success ends the
/// pass with that provider's output.
pub proof fn lemma_run_step(order: Seq<Model>, pos: int, outcome: Map<Model, Option<Seq<char>>>)
    requires
        0 <= pos < order.len(),
    ensures
        outcome[order[pos]] is None ==> run_result(order.skip(pos), outcome) == run_result(
            order.skip(pos + 1),
            outcome,
        ),
        outcome[order[pos]] matches Some(t) ==> run_result(order.skip(pos), outcome)
            == Ok::<(Model, Seq<char>), ApiError>((order[pos], t)),
{
    assert(order.skip(pos).first() == order[pos]);
    assert(order.skip(pos).skip(1) =~= order.skip(pos + 1));
    assert(order.skip(pos).len() > 0);
}

/// Helper for the fallback law: when one model of the order succeeds and
/// every other model fails, the pass returns that model's output.
proof fn lemma_unique_success(
    order: Seq<Model>,
    outcome: Map<Model, Option<Seq<char>>>,
    winner: Model,
    text: Seq<char>,
)
    requires
        order.contains(winner),
        outcome[winner] == Some(text),
        forall|i: int|
            0 <= i < order.len() && order[i] != winner ==> (#[trigger] outcome[order[i]])
                is None,
    ensures
        run_result(order, outcome) == Ok::<(Model, Seq<char>), ApiError>((winner, text)),
    decreases order.len(),
{
    if order.first() == winner {
    } else {
        let j = choose|j: int| 0 <= j < order.len() && order[j] == winner;
        assert(order.skip(1)[j - 1] == winner);
        assert(order.skip(1).contains(winner));
        lemma_unique_success(order.skip(1), outcome, winner, text);
    }
}

/// Law of generation fallback: for any pool in which exactly one provider
/// succeeds, a pass over any permutation of that pool returns that provider's
/// output and identity, whatever the permutation.
pub proof fn lemma_generation_fallback(
    pool: Seq<Model>,
    order: Seq<Model>,
    outcome: Map<Model, Option<Seq<char>>>,
    winner: Model,
    text: Seq<char>,
)
    requires
        order.to_multiset() == pool.to_multiset(),
        pool.contains(winner),
        outcome[winner] == Some(text),
        forall|m: Model| pool.contains(m) && m != winner ==> (#[trigger] outcome[m]) is None,
    ensures
        run_result(order, outcome) == Ok::<(Model, Seq<char>), ApiError>((winner, text)),
{
    broadcast use vstd::seq_lib::group_to_multiset_ensures;

    assert(pool.to_multiset().contains(winner));
    assert(order.contains(winner));
    assert forall|i: int|
        0 <= i < order.len() && order[i] != winner implies (#[trigger] outcome[order[i]])
        is None by {
        assert(order.contains(order[i]));
        assert(order.to_multiset().contains(order[i]));
        assert(pool.contains(order[i]));
    }
    lemma_unique_success(order, outcome, winner, text);
}

/// Law of generation exhaustion: when every provider of the order fails, the
/// pass fails with [`ApiError::AllProvidersFailed`]. (The other half of the
/// law, an empty pool failing with [`ApiError::NoProviders`], is the
/// postcondition of [`GenerationController::begin_generation`].)
pub proof fn lemma_generation_exhaustion(order: Seq<Model>, outcome: Map<Model, Option<Seq<char>>>)
    requires
        forall|i: int| 0 <= i < order.len() ==> (#[trigger] outcome[order[i]]) is None,
    ensures
        run_result(order, outcome) == Err::<(Model, Seq<char>), ApiError>(
            ApiError::AllProvidersFailed,
        ),
    decreases order.len(),
{
    if order.len() > 0 {
        assert(forall|i: int|
            0 <= i < order.skip(1).len() ==> order.skip(1)[i] == order[i + 1]);
        lemma_generation_exhaustion(order.skip(1), outcome);
    }
}

} // verus!
