use vstd::prelude::*;

use super::generic_pipeline::GenericPipeline;
use super::output::PipelineOutput;

use crate::generic::node::NodeOutput;

verus! {

/// A built pipeline wrapped to act as a node of another pipeline.
///
/// The node runs the pipeline on its input: a pipeline that soft fails makes the
/// node soft fail, and the output of a pipeline that finishes is what the node
/// advances with. When the pipeline storage is shared, the wrapped pipeline runs
/// with the storage of the pipeline the node is in; otherwise with a fresh one.
#[derive(Debug, Clone)]
pub struct GenericPipelineAsNode<P> {
    pipeline: P,
    share_pipeline_storage: bool,
}

impl<P> GenericPipelineAsNode<P> {
    /// The wrapped pipeline.
    pub closed spec fn pipeline_view(&self) -> P {
        self.pipeline
    }

    /// Whether the wrapped pipeline runs with the storage of the pipeline the node is in.
    pub closed spec fn shares_storage_view(&self) -> bool {
        self.share_pipeline_storage
    }

    /// Wraps `pipeline` as a node, with storage sharing off.
    pub fn new(pipeline: P) -> (r: Self)
        ensures
            r.pipeline_view() == pipeline,
            !r.shares_storage_view(),
    {
        GenericPipelineAsNode { pipeline, share_pipeline_storage: false }
    }

    /// Turns sharing of the pipeline storage on.
    pub fn share_pipeline_storage(self) -> (r: Self)
        ensures
            r.pipeline_view() == self.pipeline_view(),
            r.shares_storage_view(),
    {
        GenericPipelineAsNode { pipeline: self.pipeline, share_pipeline_storage: true }
    }

    /// The wrapped pipeline.
    pub fn pipeline(&self) -> (r: &P)
        ensures
            *r == self.pipeline_view(),
    {
        &self.pipeline
    }

    /// The storage the wrapped pipeline runs with when the node runs with `caller`,
    /// the storage of the pipeline the node is in.
    ///
    /// With sharing on it is `caller` itself: the wrapped pipeline's nodes see what
    /// `caller` holds, and what they store stays in `caller`. With sharing off it is
    /// `fresh`, a storage made for this run, and `caller` is left as it was. The
    /// storage type is the caller's; that `fresh` starts empty is up to the caller,
    /// which makes it.
    pub fn storage_for_run<'a, S>(&self, caller: &'a mut S, fresh: &'a mut S) -> (r: &'a mut S)
        ensures
            self.shares_storage_view() ==> {
                &&& *r == *old(caller)
                &&& *final(caller) == *final(r)
                &&& *final(fresh) == *old(fresh)
            },
            !self.shares_storage_view() ==> {
                &&& *r == *old(fresh)
                &&& *final(fresh) == *final(r)
                &&& *final(caller) == *old(caller)
            },
    {
        if self.share_pipeline_storage {
            caller
        } else {
            fresh
        }
    }

    /// Whether the wrapped pipeline runs with the storage of the pipeline the node is in.
    pub fn shares_storage(&self) -> (r: bool)
        ensures
            r == self.shares_storage_view(),
    {
        self.share_pipeline_storage
    }
}

impl<N> GenericPipeline<N> {
    /// Wraps the pipeline as a node.
    pub fn into_node(self) -> (r: GenericPipelineAsNode<GenericPipeline<N>>)
        ensures
            r.pipeline_view() == self,
            !r.shares_storage_view(),
    {
        GenericPipelineAsNode::new(self)
    }
}

/// The node output that a pipeline output stands for.
pub open spec fn spec_node_output_from<T, D>(value: PipelineOutput<T>) -> NodeOutput<T, D> {
    match value {
        PipelineOutput::SoftFail => NodeOutput::SoftFail,
        PipelineOutput::Done(data) => NodeOutput::Advance(data),
    }
}

/// Converts a pipeline output into the output of a node: a soft fail stays a soft
/// fail and a finished output advances.
pub fn node_output_from<T, D>(value: PipelineOutput<T>) -> (r: NodeOutput<T, D>)
    ensures
        r == spec_node_output_from::<T, D>(value),
{
    match value {
        PipelineOutput::SoftFail => NodeOutput::SoftFail,
        PipelineOutput::Done(data) => NodeOutput::Advance(data),
    }
}

/// What a node wrapping a pipeline returns, given what the pipeline run returned:
/// the converted output, or the pipeline error.
pub fn pipeline_result_to_node<T, D, E>(result: Result<PipelineOutput<T>, E>) -> (r: Result<
    NodeOutput<T, D>,
    E,
>)
    ensures
        r == match result {
            Ok(output) => Ok(spec_node_output_from::<T, D>(output)),
            Err(e) => Err::<NodeOutput<T, D>, E>(e),
        },
{
    match result {
        Ok(output) => Ok(node_output_from(output)),
        Err(e) => Err(e),
    }
}

impl<T, D> From<PipelineOutput<T>> for NodeOutput<T, D> {
    /// A soft fail stays a soft fail and a finished output advances.
    fn from(value: PipelineOutput<T>) -> (r: Self) {
        node_output_from(value)
    }
}

impl<T, D> vstd::std_specs::convert::FromSpecImpl<PipelineOutput<T>> for NodeOutput<T, D> {
    open spec fn obeys_from_spec() -> bool {
        true
    }

    open spec fn from_spec(value: PipelineOutput<T>) -> Self {
        spec_node_output_from(value)
    }
}

} // verus!
