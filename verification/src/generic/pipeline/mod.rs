//! Generic pipelines: the pipeline of nodes, its builder, its storage and its errors.
pub mod error;
pub mod fn_pipeline;
pub mod generic_pipeline;
pub mod generic_pipeline_as_node;
pub mod internal_node;
pub mod output;
pub mod pipeline_storage;
pub mod squash_pipelines;

pub use error::PipelineError;
pub use fn_pipeline::FnPipeline;
pub use generic_pipeline::{GenericPipeline, GenericPipelineBuilder, PipelineRun, PipelineStep};
pub use generic_pipeline_as_node::GenericPipelineAsNode;
pub use internal_node::{InternalNodeOutput, InternalNodeStruct, NodeSignature};
pub use output::PipelineOutput;
pub use pipeline_storage::PipelineStorage;
