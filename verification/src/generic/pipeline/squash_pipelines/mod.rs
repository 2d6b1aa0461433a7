//! Pipelines made from orchestrators.
pub mod orchestrator_as_pipeline;

pub use orchestrator_as_pipeline::OrchestratorAsPipeline;
