use vstd::prelude::*;
use vstd::string::StringExecFns;

verus! {

/// Errors that a generic orchestrator reports on its own.
#[derive(Debug, Clone, Copy, PartialEq, Eq)]
pub enum OrchestratorError {
    /// All the pipelines of the orchestrator soft failed.
    AllPipelinesSoftFailed,
}

impl OrchestratorError {
    /// The text that describes the error.
    pub open spec fn spec_message(&self) -> Seq<char> {
        match self {
            OrchestratorError::AllPipelinesSoftFailed => "all pipelines in orchestrator failed"@,
        }
    }

    /// Describes the error in words.
    pub fn message(&self) -> (r: String)
        ensures
            r@ == self.spec_message(),
    {
        match self {
            OrchestratorError::AllPipelinesSoftFailed => String::from_str(
                "all pipelines in orchestrator failed",
            ),
        }
    }
}

/// How an orchestrator run fails: every pipeline soft failed, or a pipeline failed
/// with an error.
#[derive(Debug, PartialEq, Eq)]
pub enum ErrorInner<E> {
    /// All the pipelines soft failed.
    AllPipelinesSoftFailed,
    /// A pipeline failed with this error.
    Other(E),
}

} // verus!
