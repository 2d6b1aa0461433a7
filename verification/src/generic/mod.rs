//! Generic nodes, pipelines and orchestrators.
pub mod node;
pub mod orchestrator;
pub mod pipeline;
