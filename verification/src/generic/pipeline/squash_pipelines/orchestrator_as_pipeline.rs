use vstd::prelude::*;

verus! {

/// An orchestrator wrapped to act as a pipeline.
///
/// The pipeline's run is the orchestrator's run: its output and its error.
#[derive(Debug, Clone)]
pub struct OrchestratorAsPipeline<O> {
    orchestrator: O,
}

impl<O> OrchestratorAsPipeline<O> {
    /// The wrapped orchestrator.
    pub closed spec fn orchestrator_view(&self) -> O {
        self.orchestrator
    }

    /// Wraps `orchestrator` as a pipeline.
    pub fn new(orchestrator: O) -> (r: Self)
        ensures
            r.orchestrator_view() == orchestrator,
    {
        OrchestratorAsPipeline { orchestrator }
    }

    /// The wrapped orchestrator.
    pub fn orchestrator(&self) -> (r: &O)
        ensures
            *r == self.orchestrator_view(),
    {
        &self.orchestrator
    }
}

} // verus!
