use vstd::prelude::*;

use crate::generic::pipeline::PipelineOutput;
use vstd::std_specs::convert::IntoSpec;

verus! {

/// What a pipeline of an orchestrator returns when it does not fail.
#[derive(Debug, PartialEq, Eq)]
pub enum InternalPipelineOutput<T> {
    /// The pipeline soft failed.
    SoftFail,
    /// The pipeline finished with this output.
    Done(T),
}

/// The orchestrator's view of a pipeline output.
pub open spec fn spec_from_pipeline_output<T>(value: PipelineOutput<T>) -> InternalPipelineOutput<T> {
    match value {
        PipelineOutput::SoftFail => InternalPipelineOutput::SoftFail,
        PipelineOutput::Done(v) => InternalPipelineOutput::Done(v),
    }
}

/// Converts a pipeline output into the orchestrator's view of it.
pub fn from_pipeline_output<T>(value: PipelineOutput<T>) -> (r: InternalPipelineOutput<T>)
    ensures
        r == spec_from_pipeline_output(value),
{
    match value {
        PipelineOutput::SoftFail => InternalPipelineOutput::SoftFail,
        PipelineOutput::Done(v) => InternalPipelineOutput::Done(v),
    }
}

impl<T, U: Into<T>> From<PipelineOutput<U>> for InternalPipelineOutput<T> {
    /// A soft fail stays a soft fail; a finished output is converted into `T`.
    fn from(value: PipelineOutput<U>) -> (r: Self)
        ensures
            (value is SoftFail) <==> (r is SoftFail),
            value matches PipelineOutput::Done(v) ==> r matches InternalPipelineOutput::Done(w)
                && call_ensures(U::into, (v,), w),
    {
        match value {
            PipelineOutput::SoftFail => InternalPipelineOutput::SoftFail,
            PipelineOutput::Done(v) => InternalPipelineOutput::Done(v.into()),
        }
    }
}

impl<T, U: Into<T>> vstd::std_specs::convert::FromSpecImpl<PipelineOutput<U>> for InternalPipelineOutput<T> {
    open spec fn obeys_from_spec() -> bool {
        <U as IntoSpec<T>>::obeys_into_spec()
    }

    open spec fn from_spec(value: PipelineOutput<U>) -> Self {
        match value {
            PipelineOutput::SoftFail => InternalPipelineOutput::SoftFail,
            PipelineOutput::Done(v) => InternalPipelineOutput::Done(<U as IntoSpec<T>>::into_spec(v)),
        }
    }
}

impl<T, U> From<U> for InternalPipelineOutput<T> where U: Into<PipelineOutput<U>>, U: Into<T> {
    /// Converts `value` into a pipeline output first, then that output into the
    /// orchestrator's view of it.
    fn from(value: U) -> (r: Self)
        ensures
            exists|p: PipelineOutput<U>|
                call_ensures(<U as Into<PipelineOutput<U>>>::into, (value,), p) && call_ensures(
                    <InternalPipelineOutput<T> as From<PipelineOutput<U>>>::from,
                    (p,),
                    r,
                ),
    {
        let pipeline_output: PipelineOutput<U> = value.into();
        <InternalPipelineOutput<T> as From<PipelineOutput<U>>>::from(pipeline_output)
    }
}

impl<T, U> vstd::std_specs::convert::FromSpecImpl<U> for InternalPipelineOutput<T> where U: Into<PipelineOutput<U>>, U: Into<T> {
    open spec fn obeys_from_spec() -> bool {
        &&& <U as IntoSpec<PipelineOutput<U>>>::obeys_into_spec()
        &&& <U as IntoSpec<T>>::obeys_into_spec()
    }

    open spec fn from_spec(value: U) -> Self {
        match <U as IntoSpec<PipelineOutput<U>>>::into_spec(value) {
            PipelineOutput::SoftFail => InternalPipelineOutput::SoftFail,
            PipelineOutput::Done(v) => InternalPipelineOutput::Done(<U as IntoSpec<T>>::into_spec(v)),
        }
    }
}

/// A pipeline as an orchestrator holds it.
#[derive(Debug)]
pub struct InternalPipelineStruct<P> {
    pipeline: P,
}

impl<P> InternalPipelineStruct<P> {
    /// The wrapped pipeline.
    pub closed spec fn pipeline_view(&self) -> P {
        self.pipeline
    }

    /// Wraps `pipeline`.
    pub fn new(pipeline: P) -> (r: Self)
        ensures
            r.pipeline_view() == pipeline,
    {
        InternalPipelineStruct { pipeline }
    }

    /// The wrapped pipeline.
    pub fn pipeline(&self) -> (r: &P)
        ensures
            *r == self.pipeline_view(),
    {
        &self.pipeline
    }
}

} // verus!
