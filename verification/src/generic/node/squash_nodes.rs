use vstd::prelude::*;

use super::output::NodeOutput;

verus! {

/// A pipeline wrapped to act as a node.
///
/// The node advances with the pipeline's output, or fails with its error.
#[derive(Debug, Clone)]
pub struct PipelineAsNode<P> {
    pipeline: P,
}

impl<P> PipelineAsNode<P> {
    /// The wrapped pipeline.
    pub closed spec fn pipeline_view(&self) -> P {
        self.pipeline
    }

    /// Wraps `pipeline` as a node.
    pub fn new(pipeline: P) -> (r: Self)
        ensures
            r.pipeline_view() == pipeline,
    {
        PipelineAsNode { pipeline }
    }

    /// The wrapped pipeline.
    pub fn pipeline(&self) -> (r: &P)
        ensures
            *r == self.pipeline_view(),
    {
        &self.pipeline
    }
}

/// An orchestrator wrapped to act as a node.
///
/// The node advances with the orchestrator's output, or fails with its error.
#[derive(Debug, Clone)]
pub struct OrchestratorAsNode<O> {
    orchestrator: O,
}

impl<O> OrchestratorAsNode<O> {
    /// The wrapped orchestrator.
    pub closed spec fn orchestrator_view(&self) -> O {
        self.orchestrator
    }

    /// Wraps `orchestrator` as a node.
    pub fn new(orchestrator: O) -> (r: Self)
        ensures
            r.orchestrator_view() == orchestrator,
    {
        OrchestratorAsNode { orchestrator }
    }

    /// The wrapped orchestrator.
    pub fn orchestrator(&self) -> (r: &O)
        ensures
            *r == self.orchestrator_view(),
    {
        &self.orchestrator
    }
}

/// What a node wrapping a pipeline or an orchestrator returns, given what the
/// wrapped run returned: an output advances, an error is the node's error.
pub fn advance_result<T, D, E>(result: Result<T, E>) -> (r: Result<NodeOutput<T, D>, E>)
    ensures
        r == match result {
            Ok(output) => Ok(NodeOutput::<T, D>::Advance(output)),
            Err(e) => Err::<NodeOutput<T, D>, E>(e),
        },
{
    match result {
        Ok(output) => Ok(NodeOutput::Advance(output)),
        Err(e) => Err(e),
    }
}

} // verus!
