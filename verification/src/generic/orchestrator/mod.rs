//! Generic orchestrators: run pipelines in order until one does not soft fail.
pub mod error;
pub mod generic_orchestrator;
pub mod generic_orchestrator_as_node;
pub mod generic_orchestrator_as_pipeline;
pub mod internal_pipeline;
pub mod keyed_generic_orchestrator;

pub use error::{ErrorInner, OrchestratorError};
pub use generic_orchestrator::{GenericOrchestrator, OrchestratorStep};
pub use generic_orchestrator_as_node::GenericOrchestratorAsNode;
pub use generic_orchestrator_as_pipeline::GenericOrchestratorAsPipeline;
pub use internal_pipeline::{InternalPipelineOutput, InternalPipelineStruct};
pub use keyed_generic_orchestrator::KeyedGenericOrchestrator;
