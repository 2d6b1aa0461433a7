use vstd::prelude::*;

verus! {

/// What a pipeline returns when it does not fail.
#[derive(Debug, PartialEq, Eq)]
pub enum PipelineOutput<T> {
    /// The pipeline soft failed.
    SoftFail,
    /// The pipeline finished successfully with this output.
    Done(T),
}

} // verus!
