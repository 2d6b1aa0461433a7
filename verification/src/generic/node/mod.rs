//! Nodes: what they return and the helpers that build those returns.
pub mod fn_node;
pub mod node_trait;
pub mod output;
pub mod squash_nodes;

pub use node_trait::{Node, Returnable};
pub use output::{NextNode, NodeOutput, ReturnFromPipelineOutput};
