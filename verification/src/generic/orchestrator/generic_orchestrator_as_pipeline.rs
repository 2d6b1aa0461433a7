use vstd::prelude::*;

use super::error::ErrorInner;
use super::generic_orchestrator::GenericOrchestrator;
use super::keyed_generic_orchestrator::KeyedGenericOrchestrator;
use crate::generic::pipeline::PipelineOutput;

verus! {

/// A generic orchestrator wrapped to act as a pipeline.
///
/// The pipeline finishes with the orchestrator's output, soft fails when all the
/// orchestrator's pipelines soft fail, and fails with the error of a pipeline that fails.
#[derive(Debug, Clone)]
pub struct GenericOrchestratorAsPipeline<O> {
    orchestrator: O,
}

impl<O> GenericOrchestratorAsPipeline<O> {
    /// The wrapped orchestrator.
    pub closed spec fn orchestrator_view(&self) -> O {
        self.orchestrator
    }

    /// Wraps `orchestrator` as a pipeline.
    pub fn new(orchestrator: O) -> (r: Self)
        ensures
            r.orchestrator_view() == orchestrator,
    {
        GenericOrchestratorAsPipeline { orchestrator }
    }

    /// The wrapped orchestrator.
    pub fn orchestrator(&self) -> (r: &O)
        ensures
            *r == self.orchestrator_view(),
    {
        &self.orchestrator
    }
}

impl<P> GenericOrchestrator<P> {
    /// Wraps the orchestrator as a pipeline.
    pub fn into_pipeline(self) -> (r: GenericOrchestratorAsPipeline<GenericOrchestrator<P>>)
        ensures
            r.orchestrator_view() == self,
    {
        GenericOrchestratorAsPipeline::new(self)
    }
}

impl<P, X> KeyedGenericOrchestrator<P, X> {
    /// Wraps the orchestrator as a pipeline.
    pub fn into_pipeline(self) -> (r: GenericOrchestratorAsPipeline<KeyedGenericOrchestrator<P, X>>)
        ensures
            r.orchestrator_view() == self,
    {
        GenericOrchestratorAsPipeline::new(self)
    }
}

/// What the pipeline returns, given how the orchestrator run ended.
pub open spec fn spec_orchestrator_result_to_pipeline<T, E>(result: Result<T, ErrorInner<E>>) -> Result<
    PipelineOutput<T>,
    E,
> {
    match result {
        Ok(output) => Ok(PipelineOutput::Done(output)),
        Err(ErrorInner::AllPipelinesSoftFailed) => Ok(PipelineOutput::SoftFail),
        Err(ErrorInner::Other(e)) => Err(e),
    }
}

/// Turns how an orchestrator run ended into what a pipeline wrapping it returns: an
/// output finishes the pipeline, all pipelines soft failing soft fails it, a
/// pipeline error is its error.
pub fn orchestrator_result_to_pipeline<T, E>(result: Result<T, ErrorInner<E>>) -> (r: Result<
    PipelineOutput<T>,
    E,
>)
    ensures
        r == spec_orchestrator_result_to_pipeline(result),
{
    match result {
        Ok(output) => Ok(PipelineOutput::Done(output)),
        Err(ErrorInner::AllPipelinesSoftFailed) => Ok(PipelineOutput::SoftFail),
        Err(ErrorInner::Other(e)) => Err(e),
    }
}

} // verus!
