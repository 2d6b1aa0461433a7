use vstd::prelude::*;

use std::collections::HashMap;

use super::generic_orchestrator::{
    decided, first_step, lemma_first_pipeline_that_does_not_soft_fail_decides, next_step_of,
    run_steps, soft_failed, step_after, OrchestratorStep, PipelineOutcome,
};
use super::error::ErrorInner;

verus! {

broadcast use vstd::std_specs::hash::group_hash_axioms;

/// Orchestrator that keeps its pipelines in buckets by key.
///
/// A run takes the key of its input and runs the pipelines of that key's bucket in
/// the order they were added, answering with the first one that does not soft
/// fail. When the key has no bucket the run fails with `AllPipelinesSoftFailed`.
/// Keys are given as integers; `X` is what computes the key of an input.
#[derive(Debug)]
pub struct KeyedGenericOrchestrator<P, X> {
    pipeline_buckets: HashMap<u64, Vec<P>>,
    key_extractor: X,
}

impl<P, X> KeyedGenericOrchestrator<P, X> {
    /// The buckets: for each key, its pipelines in the order they were added.
    pub closed spec fn buckets_view(&self) -> Map<u64, Seq<P>> {
        self.pipeline_buckets@.map_values(|v: Vec<P>| v@)
    }

    /// What computes the key of an input.
    pub closed spec fn key_extractor_view(&self) -> X {
        self.key_extractor
    }

    /// The pipelines of the bucket of `key` (none when there is no such bucket).
    pub open spec fn bucket(&self, key: u64) -> Seq<P> {
        if self.buckets_view().contains_key(key) {
            self.buckets_view()[key]
        } else {
            Seq::empty()
        }
    }

    /// Creates an orchestrator without pipelines that keys inputs with `key_extractor`.
    pub fn new(key_extractor: X) -> (r: Self)
        ensures
            r.buckets_view() == Map::<u64, Seq<P>>::empty(),
            r.key_extractor_view() == key_extractor,
    {
        let r = KeyedGenericOrchestrator { pipeline_buckets: HashMap::new(), key_extractor };
        assert(r.buckets_view() =~= Map::<u64, Seq<P>>::empty());
        r
    }

    /// What computes the key of an input.
    pub fn key_extractor(&self) -> (r: &X)
        ensures
            *r == self.key_extractor_view(),
    {
        &self.key_extractor
    }

    /// Adds a pipeline to the bucket of `key`, after the ones already there.
    pub fn add_pipeline(&mut self, key: u64, pipeline: P)
        ensures
            final(self).buckets_view() == old(self).buckets_view().insert(
                key,
                old(self).bucket(key).push(pipeline),
            ),
            final(self).key_extractor_view() == old(self).key_extractor_view(),
    {
        let ghost old_map = self.pipeline_buckets@;
        let mut bucket = match self.pipeline_buckets.remove(&key) {
            Some(b) => b,
            None => Vec::new(),
        };
        assert(bucket@ == old(self).bucket(key));
        bucket.push(pipeline);
        self.pipeline_buckets.insert(key, bucket);
        proof {
            assert(self.pipeline_buckets@ == old_map.remove(key).insert(key, bucket));
            assert(self.buckets_view() =~= old(self).buckets_view().insert(
                key,
                old(self).bucket(key).push(pipeline),
            ));
        }
    }

    /// Number of pipelines in the bucket of `key`.
    pub fn bucket_len(&self, key: u64) -> (r: usize)
        ensures
            r == self.bucket(key).len(),
    {
        match self.pipeline_buckets.get(&key) {
            Some(b) => b.len(),
            None => 0,
        }
    }

    /// The pipeline at `index` in the bucket of `key`.
    pub fn pipeline(&self, key: u64, index: usize) -> (r: &P)
        requires
            index < self.bucket(key).len(),
        ensures
            *r == self.bucket(key)[index as int],
    {
        match self.pipeline_buckets.get(&key) {
            Some(b) => &b[index],
            None => vstd::pervasive::unreached(),
        }
    }

    /// Starts a run on an input with key `key`: runs the first pipeline of its
    /// bucket, or fails with `AllPipelinesSoftFailed` when there is none.
    pub fn start<O, E>(&self, key: u64) -> (r: OrchestratorStep<O, E>)
        ensures
            r == first_step::<O, E>(self.bucket(key).len() as int),
    {
        if self.bucket_len(key) > 0 {
            OrchestratorStep::RunPipeline(0)
        } else {
            OrchestratorStep::Finished(Err(ErrorInner::AllPipelinesSoftFailed))
        }
    }

    /// Decides what the orchestrator does after the pipeline at `index` of the bucket
    /// of `key` gave `outcome`: a soft fail moves on to the next pipeline of the bucket
    /// (or fails the run with `AllPipelinesSoftFailed` after the last one); an output or
    /// an error ends the run with it.
    pub fn next_step<O, E>(&self, key: u64, index: usize, outcome: PipelineOutcome<O, E>) -> (r:
        OrchestratorStep<O, E>)
        requires
            index < self.bucket(key).len(),
        ensures
            r == step_after(self.bucket(key).len() as int, index as int, outcome),
    {
        next_step_of(self.bucket_len(key), index, outcome)
    }

    /// A run on an input with key `key`, driven by [`Self::start`] and
    /// [`Self::next_step`], is decided by the first pipeline of that key's bucket, in
    /// the order they were added, that does not soft fail; no pipeline after it runs.
    /// When all of them soft fail, or the key has no bucket, the run fails with
    /// `AllPipelinesSoftFailed` (without running any pipeline, when there is no bucket).
    pub proof fn lemma_run_decided_by_first_in_bucket<O, E>(
        &self,
        key: u64,
        outcomes: Seq<PipelineOutcome<O, E>>,
    )
        requires
            outcomes.len() == self.bucket(key).len(),
            outcomes.len() <= usize::MAX,
        ensures
            !self.buckets_view().contains_key(key) ==> run_steps(0, outcomes) == (
                Err::<O, ErrorInner<E>>(ErrorInner::AllPipelinesSoftFailed),
                0int,
            ),
            forall|i: int|
                0 <= i < outcomes.len() && (forall|j: int|
                    0 <= j < i ==> soft_failed(#[trigger] outcomes[j])) && !soft_failed(
                    #[trigger] outcomes[i],
                ) ==> run_steps(outcomes.len() as int, outcomes) == (decided(outcomes[i]), i + 1),
            (forall|j: int| 0 <= j < outcomes.len() ==> soft_failed(#[trigger] outcomes[j]))
                ==> run_steps(outcomes.len() as int, outcomes) == (
                Err::<O, ErrorInner<E>>(ErrorInner::AllPipelinesSoftFailed),
                outcomes.len() as int,
            ),
    {
        lemma_first_pipeline_that_does_not_soft_fail_decides(outcomes.len() as int, outcomes);
    }

    /// Adding a pipeline under one key leaves the buckets of all other keys as they
    /// were, and appends the pipeline to the bucket of that key.
    pub proof fn lemma_add_pipeline_touches_only_its_key(
        &self,
        after: &Self,
        key: u64,
        pipeline: P,
        other: u64,
    )
        requires
            after.buckets_view() == self.buckets_view().insert(key, self.bucket(key).push(pipeline)),
        ensures
            after.bucket(key) == self.bucket(key).push(pipeline),
            other != key ==> after.bucket(other) == self.bucket(other),
    {
    }
}

} // verus!
