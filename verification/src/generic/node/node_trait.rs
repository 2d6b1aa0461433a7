use vstd::prelude::*;

use super::output::{NextNode, NodeOutput, ReturnFromPipelineOutput};
use crate::type_key::TypeKey;

verus! {

/// The types a node works with.
///
/// Running a node is asynchronous work; the runtime that performs it binds a
/// `run` method to these types.
pub trait Node {
    /// Node input type.
    type Input;
    /// Node output type.
    type Output;
    /// Node error type.
    type Error;
}

/// Helpers for a [`Node`] that build the [`NodeOutput`] it returns.
pub trait Returnable: Node + Sized {
    /// Pipes `data` to the first node of type `next_node_type` in the pipeline.
    fn pipe_to<D>(data: D, next_node_type: TypeKey, next_node_type_name: &'static str) -> (r:
        NodeOutput<Self::Output, D>)
        ensures
            r == NodeOutput::<Self::Output, D>::PipeToNode(
                NextNode { output: data, next_node_type, next_node_type_name },
            ),
    {
        NodeOutput::PipeToNode(NextNode { output: data, next_node_type, next_node_type_name })
    }

    /// Returns `data` from the pipeline early.
    fn return_from_pipeline<D>(data: D) -> (r: NodeOutput<Self::Output, D>)
        ensures
            r == NodeOutput::<Self::Output, D>::ReturnFromPipeline(ReturnFromPipelineOutput(data)),
    {
        NodeOutput::ReturnFromPipeline(ReturnFromPipelineOutput(data))
    }

    /// Advances the pipeline to the next node with `output`.
    fn advance<D>(output: Self::Output) -> (r: NodeOutput<Self::Output, D>)
        ensures
            r == NodeOutput::<Self::Output, D>::Advance(output),
    {
        NodeOutput::Advance(output)
    }

    /// Soft fails the pipeline.
    fn soft_fail<D>() -> (r: NodeOutput<Self::Output, D>)
        ensures
            r == NodeOutput::<Self::Output, D>::SoftFail,
    {
        NodeOutput::SoftFail
    }
}

impl<T: Node> Returnable for T {

}

} // verus!
