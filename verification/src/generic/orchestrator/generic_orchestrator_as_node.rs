use vstd::prelude::*;

use super::error::ErrorInner;
use super::generic_orchestrator::GenericOrchestrator;
use super::keyed_generic_orchestrator::KeyedGenericOrchestrator;
use crate::generic::node::NodeOutput;

verus! {

/// A generic orchestrator wrapped to act as a node.
///
/// The node advances with the orchestrator's output, soft fails when all the
/// orchestrator's pipelines soft fail, and fails with the error of a pipeline that fails.
#[derive(Debug, Clone)]
pub struct GenericOrchestratorAsNode<O> {
    orchestrator: O,
}

impl<O> GenericOrchestratorAsNode<O> {
    /// The wrapped orchestrator.
    pub closed spec fn orchestrator_view(&self) -> O {
        self.orchestrator
    }

    /// Wraps `orchestrator` as a node.
    pub fn new(orchestrator: O) -> (r: Self)
        ensures
            r.orchestrator_view() == orchestrator,
    {
        GenericOrchestratorAsNode { orchestrator }
    }

    /// The wrapped orchestrator.
    pub fn orchestrator(&self) -> (r: &O)
        ensures
            *r == self.orchestrator_view(),
    {
        &self.orchestrator
    }
}

impl<P> GenericOrchestrator<P> {
    /// Wraps the orchestrator as a node.
    pub fn into_node(self) -> (r: GenericOrchestratorAsNode<GenericOrchestrator<P>>)
        ensures
            r.orchestrator_view() == self,
    {
        GenericOrchestratorAsNode::new(self)
    }
}

impl<P, X> KeyedGenericOrchestrator<P, X> {
    /// Wraps the orchestrator as a node.
    pub fn into_node(self) -> (r: GenericOrchestratorAsNode<KeyedGenericOrchestrator<P, X>>)
        ensures
            r.orchestrator_view() == self,
    {
        GenericOrchestratorAsNode::new(self)
    }
}

/// What the node returns, given how the orchestrator run ended.
pub open spec fn spec_orchestrator_result_to_node<T, D, E>(result: Result<T, ErrorInner<E>>) -> Result<
    NodeOutput<T, D>,
    E,
> {
    match result {
        Ok(output) => Ok(NodeOutput::Advance(output)),
        Err(ErrorInner::AllPipelinesSoftFailed) => Ok(NodeOutput::SoftFail),
        Err(ErrorInner::Other(e)) => Err(e),
    }
}

/// Turns how an orchestrator run ended into what a node wrapping it returns: an
/// output advances, all pipelines soft failing soft fails, a pipeline error is the
/// node's error.
pub fn orchestrator_result_to_node<T, D, E>(result: Result<T, ErrorInner<E>>) -> (r: Result<
    NodeOutput<T, D>,
    E,
>)
    ensures
        r == spec_orchestrator_result_to_node::<T, D, E>(result),
{
    match result {
        Ok(output) => Ok(NodeOutput::Advance(output)),
        Err(ErrorInner::AllPipelinesSoftFailed) => Ok(NodeOutput::SoftFail),
        Err(ErrorInner::Other(e)) => Err(e),
    }
}

} // verus!
