use vstd::prelude::*;

use super::error::ErrorInner;
use super::internal_pipeline::InternalPipelineOutput;

verus! {

/// The next thing a running orchestrator does.
#[derive(Debug, PartialEq, Eq)]
pub enum OrchestratorStep<O, E> {
    /// Run the pipeline at this position on a copy of the input.
    RunPipeline(usize),
    /// The run is over, with this result.
    Finished(Result<O, ErrorInner<E>>),
}

/// What a pipeline run can give back to an orchestrator.
pub type PipelineOutcome<O, E> = Result<InternalPipelineOutput<O>, E>;

/// The pipeline soft failed.
pub open spec fn soft_failed<O, E>(outcome: PipelineOutcome<O, E>) -> bool {
    outcome matches Ok(InternalPipelineOutput::SoftFail)
}

/// The result a run has when `outcome` decides it.
pub open spec fn decided<O, E>(outcome: PipelineOutcome<O, E>) -> Result<O, ErrorInner<E>> {
    match outcome {
        Ok(InternalPipelineOutput::Done(o)) => Ok(o),
        Err(e) => Err(ErrorInner::Other(e)),
        Ok(InternalPipelineOutput::SoftFail) => Err(ErrorInner::AllPipelinesSoftFailed),
    }
}

/// The first step of a run over `n` pipelines.
pub open spec fn first_step<O, E>(n: int) -> OrchestratorStep<O, E> {
    if n > 0 {
        OrchestratorStep::RunPipeline(0)
    } else {
        OrchestratorStep::Finished(Err(ErrorInner::AllPipelinesSoftFailed))
    }
}

/// The step of a run over `n` pipelines after the pipeline at `index` gave `outcome`.
pub open spec fn step_after<O, E>(n: int, index: int, outcome: PipelineOutcome<O, E>) -> OrchestratorStep<O, E> {
    if soft_failed(outcome) {
        if index + 1 < n {
            OrchestratorStep::RunPipeline((index + 1) as usize)
        } else {
            OrchestratorStep::Finished(Err(ErrorInner::AllPipelinesSoftFailed))
        }
    } else {
        OrchestratorStep::Finished(decided(outcome))
    }
}

/// Result and number of pipelines run, when a run over `n` pipelines, driven by
/// its steps, is at the pipeline at `index` and the pipelines give `outcomes`.
pub open spec fn run_from<O, E>(n: int, outcomes: Seq<PipelineOutcome<O, E>>, index: int) -> (Result<
    O,
    ErrorInner<E>,
>, int)
    decreases n - index,
{
    if index < 0 || index >= n {
        (Err(ErrorInner::AllPipelinesSoftFailed), index)
    } else {
        match step_after(n, index, outcomes[index]) {
            OrchestratorStep::RunPipeline(next) => if next == index + 1 {
                run_from(n, outcomes, index + 1)
            } else {
                (Err(ErrorInner::AllPipelinesSoftFailed), index)
            },
            OrchestratorStep::Finished(r) => (r, index + 1),
        }
    }
}

/// Result and number of pipelines run of a whole run over `n` pipelines, driven by
/// its steps, when the pipelines give `outcomes`.
pub open spec fn run_steps<O, E>(n: int, outcomes: Seq<PipelineOutcome<O, E>>) -> (Result<
    O,
    ErrorInner<E>,
>, int) {
    match first_step::<O, E>(n) {
        OrchestratorStep::RunPipeline(i) => run_from(n, outcomes, i as int),
        OrchestratorStep::Finished(r) => (r, 0),
    }
}

proof fn lemma_run_from<O, E>(n: int, outcomes: Seq<PipelineOutcome<O, E>>, k: int)
    requires
        0 <= k <= n <= usize::MAX,
        outcomes.len() == n,
        forall|j: int| 0 <= j < k ==> soft_failed(#[trigger] outcomes[j]),
    ensures
        forall|i: int|
            k <= i < n && (forall|j: int| 0 <= j < i ==> soft_failed(#[trigger] outcomes[j]))
                && !soft_failed(#[trigger] outcomes[i]) ==> run_from(n, outcomes, k) == (
            decided(outcomes[i]),
            i + 1,
        ),
        (forall|j: int| 0 <= j < n ==> soft_failed(#[trigger] outcomes[j])) ==> k < n ==> run_from(
            n,
            outcomes,
            k,
        ) == (Err::<O, ErrorInner<E>>(ErrorInner::AllPipelinesSoftFailed), n),
    decreases n - k,
{
    if k < n {
        if soft_failed(outcomes[k]) {
            if k + 1 < n {
                assert(((k + 1) as usize) as int == k + 1);
                assert(run_from(n, outcomes, k) == run_from(n, outcomes, k + 1));
                lemma_run_from(n, outcomes, k + 1);
                assert forall|i: int|
                    k <= i < n && (forall|j: int| 0 <= j < i ==> soft_failed(#[trigger] outcomes[j]))
                        && !soft_failed(#[trigger] outcomes[i]) implies run_from(n, outcomes, k) == (
                    decided(outcomes[i]),
                    i + 1,
                ) by {
                    assert(i != k);
                }
            }
        } else {
            assert forall|i: int|
                k <= i < n && (forall|j: int| 0 <= j < i ==> soft_failed(#[trigger] outcomes[j]))
                    && !soft_failed(#[trigger] outcomes[i]) implies run_from(n, outcomes, k) == (
                decided(outcomes[i]),
                i + 1,
            ) by {
                if i > k {
                    assert(soft_failed(outcomes[k]));
                }
            }
        }
    }
}

/// The run of an orchestrator is decided by the first pipeline, in the order they
/// were added, that does not soft fail: its output is the run's output and its
/// error the run's error, and no pipeline after it runs. When every pipeline soft
/// fails (or there is none), all of them run and the run fails with
/// `AllPipelinesSoftFailed`.
pub proof fn lemma_first_pipeline_that_does_not_soft_fail_decides<O, E>(
    n: int,
    outcomes: Seq<PipelineOutcome<O, E>>,
)
    requires
        0 <= n <= usize::MAX,
        outcomes.len() == n,
    ensures
        forall|i: int|
            0 <= i < n && (forall|j: int| 0 <= j < i ==> soft_failed(#[trigger] outcomes[j]))
                && !soft_failed(#[trigger] outcomes[i]) ==> run_steps(n, outcomes) == (
            decided(outcomes[i]),
            i + 1,
        ),
        (forall|j: int| 0 <= j < n ==> soft_failed(#[trigger] outcomes[j])) ==> run_steps(
            n,
            outcomes,
        ) == (Err::<O, ErrorInner<E>>(ErrorInner::AllPipelinesSoftFailed), n),
{
    lemma_run_from(n, outcomes, 0);
}

/// A run over `n` pipelines starts with the first pipeline; with no pipeline it
/// fails at once with `AllPipelinesSoftFailed`.
pub proof fn lemma_first_step<O, E>(n: int)
    ensures
        n > 0 ==> first_step::<O, E>(n) == OrchestratorStep::<O, E>::RunPipeline(0),
        n <= 0 ==> first_step::<O, E>(n) == OrchestratorStep::<O, E>::Finished(
            Err(ErrorInner::AllPipelinesSoftFailed),
        ),
{
}

/// What each outcome of the pipeline at `index` makes of a run over `n` pipelines:
/// a soft fail moves on to the next pipeline, or, after the last one, fails the
/// run with `AllPipelinesSoftFailed`; an output ends the run with that output; an
/// error ends it with that error. Only a soft fail counts as soft failing, and
/// that is what the run law's `decided` gives for an output and an error.
pub proof fn lemma_step_after_each_outcome<O, E>(n: int, index: int, o: O, e: E)
    requires
        0 <= index < n,
    ensures
        index + 1 < n ==> step_after::<O, E>(n, index, Ok(InternalPipelineOutput::SoftFail))
            == OrchestratorStep::<O, E>::RunPipeline((index + 1) as usize),
        index + 1 == n ==> step_after::<O, E>(n, index, Ok(InternalPipelineOutput::SoftFail))
            == OrchestratorStep::<O, E>::Finished(Err(ErrorInner::AllPipelinesSoftFailed)),
        step_after::<O, E>(n, index, Ok(InternalPipelineOutput::Done(o)))
            == OrchestratorStep::<O, E>::Finished(Ok(o)),
        step_after::<O, E>(n, index, Err(e)) == OrchestratorStep::<O, E>::Finished(
            Err(ErrorInner::Other(e)),
        ),
        soft_failed::<O, E>(Ok(InternalPipelineOutput::SoftFail)),
        !soft_failed::<O, E>(Ok(InternalPipelineOutput::Done(o))),
        !soft_failed::<O, E>(Err(e)),
        decided::<O, E>(Ok(InternalPipelineOutput::Done(o))) == Ok::<O, ErrorInner<E>>(o),
        decided::<O, E>(Err(e)) == Err::<O, ErrorInner<E>>(ErrorInner::Other(e)),
{
}

/// Generic orchestrator: runs its pipelines in the order they were added and answers
/// with the first one that does not soft fail.
#[derive(Debug)]
pub struct GenericOrchestrator<P> {
    pipelines: Vec<P>,
}

impl<P> GenericOrchestrator<P> {
    /// The pipelines, in the order they were added.
    pub closed spec fn pipelines_view(&self) -> Seq<P> {
        self.pipelines@
    }

    /// Creates an orchestrator without pipelines.
    pub fn new() -> (r: Self)
        ensures
            r.pipelines_view() == Seq::<P>::empty(),
    {
        GenericOrchestrator { pipelines: Vec::new() }
    }

    /// Adds a pipeline after the ones already there.
    pub fn add_pipeline(&mut self, pipeline: P)
        ensures
            final(self).pipelines_view() == old(self).pipelines_view().push(pipeline),
    {
        self.pipelines.push(pipeline);
    }

    /// Number of pipelines.
    pub fn len(&self) -> (r: usize)
        ensures
            r == self.pipelines_view().len(),
    {
        self.pipelines.len()
    }

    /// The pipeline at `index`.
    pub fn pipeline(&self, index: usize) -> (r: &P)
        requires
            index < self.pipelines_view().len(),
        ensures
            *r == self.pipelines_view()[index as int],
    {
        &self.pipelines[index]
    }

    /// Starts a run: runs the first pipeline, or fails with `AllPipelinesSoftFailed`
    /// when there is none.
    pub fn start<O, E>(&self) -> (r: OrchestratorStep<O, E>)
        ensures
            r == first_step::<O, E>(self.pipelines_view().len() as int),
    {
        if self.pipelines.len() > 0 {
            OrchestratorStep::RunPipeline(0)
        } else {
            OrchestratorStep::Finished(Err(ErrorInner::AllPipelinesSoftFailed))
        }
    }

    /// Decides what the orchestrator does after the pipeline at `index` gave `outcome`:
    /// a soft fail moves on to the next pipeline (or fails the run with
    /// `AllPipelinesSoftFailed` after the last one); an output or an error ends the run with it.
    pub fn next_step<O, E>(&self, index: usize, outcome: PipelineOutcome<O, E>) -> (r:
        OrchestratorStep<O, E>)
        requires
            index < self.pipelines_view().len(),
        ensures
            r == step_after(self.pipelines_view().len() as int, index as int, outcome),
    {
        next_step_of(self.pipelines.len(), index, outcome)
    }

    /// A run of this orchestrator, driven by [`Self::start`] and [`Self::next_step`],
    /// is decided by the first pipeline in the order they were added that does not
    /// soft fail; no pipeline after it runs. When all soft fail, all of them run and
    /// the run fails with `AllPipelinesSoftFailed`.
    pub proof fn lemma_run_decided_by_first<O, E>(&self, outcomes: Seq<PipelineOutcome<O, E>>)
        requires
            outcomes.len() == self.pipelines_view().len(),
            outcomes.len() <= usize::MAX,
        ensures
            forall|i: int|
                0 <= i < outcomes.len() && (forall|j: int|
                    0 <= j < i ==> soft_failed(#[trigger] outcomes[j])) && !soft_failed(
                    #[trigger] outcomes[i],
                ) ==> run_steps(outcomes.len() as int, outcomes) == (decided(outcomes[i]), i + 1),
            (forall|j: int| 0 <= j < outcomes.len() ==> soft_failed(#[trigger] outcomes[j]))
                ==> run_steps(outcomes.len() as int, outcomes) == (
                Err::<O, ErrorInner<E>>(ErrorInner::AllPipelinesSoftFailed),
                outcomes.len() as int,
            ),
    {
        lemma_first_pipeline_that_does_not_soft_fail_decides(outcomes.len() as int, outcomes);
    }
}

/// Decides the step of a run over `n` pipelines after the pipeline at `index` gave `outcome`.
pub fn next_step_of<O, E>(n: usize, index: usize, outcome: PipelineOutcome<O, E>) -> (r:
    OrchestratorStep<O, E>)
    requires
        index < n,
    ensures
        r == step_after(n as int, index as int, outcome),
{
    match outcome {
        Ok(InternalPipelineOutput::SoftFail) => {
            if index + 1 < n {
                OrchestratorStep::RunPipeline(index + 1)
            } else {
                OrchestratorStep::Finished(Err(ErrorInner::AllPipelinesSoftFailed))
            }
        },
        Ok(InternalPipelineOutput::Done(o)) => OrchestratorStep::Finished(Ok(o)),
        Err(e) => OrchestratorStep::Finished(Err(ErrorInner::Other(e))),
    }
}

} // verus!
