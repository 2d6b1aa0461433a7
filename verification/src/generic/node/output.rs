use vstd::prelude::*;

use crate::type_key::TypeKey;

verus! {

/// What a node hands back to the pipeline that ran it.
///
/// `T` is the node's output type; `D` is the type-erased data that is piped to
/// another node or returned from the pipeline.
#[derive(Debug)]
pub enum NodeOutput<T, D> {
    /// Fails the pipeline without returning an error.
    SoftFail,
    /// Returns from the pipeline early with the carried data.
    ReturnFromPipeline(ReturnFromPipelineOutput<D>),
    /// Advances the pipeline to the next node, which gets this output.
    Advance(T),
    /// Pipes data to the first node of the given type.
    PipeToNode(NextNode<D>),
}

/// Data returned from a pipeline early.
#[derive(Debug)]
pub struct ReturnFromPipelineOutput<D>(pub D);

/// Designates the node that data is piped to, and the data.
#[derive(Debug)]
pub struct NextNode<D> {
    /// Data handed to the next node.
    pub output: D,
    /// Type of the node to run next.
    pub next_node_type: TypeKey,
    /// Name of the type of the node to run next.
    pub next_node_type_name: &'static str,
}

impl<T, D, E> From<NodeOutput<T, D>> for Result<NodeOutput<T, D>, E> {
    /// A node output is a successful node result.
    fn from(value: NodeOutput<T, D>) -> (r: Self) {
        Ok(value)
    }
}

impl<T, D, E> vstd::std_specs::convert::FromSpecImpl<NodeOutput<T, D>> for Result<NodeOutput<T, D>, E> {
    open spec fn obeys_from_spec() -> bool {
        true
    }

    open spec fn from_spec(value: NodeOutput<T, D>) -> Self {
        Ok(value)
    }
}

} // verus!
