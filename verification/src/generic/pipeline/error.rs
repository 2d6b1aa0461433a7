use vstd::prelude::*;
use vstd::string::StringExecFns;

verus! {

/// Errors that can occur while a generic pipeline runs.
///
/// `D` is the type-erased data that a node returned.
#[derive(Debug)]
pub enum PipelineError<D> {
    /// Data that a node returned from the pipeline early has another type than the
    /// pipeline output.
    WrongOutputTypeForPipeline {
        /// Name of the node which returned the wrong type.
        node_type_name: &'static str,
        /// Data that could not be taken as the pipeline output.
        data: D,
        /// Name of the pipeline output type.
        expected_type_name: &'static str,
        /// Name of the type of the data that was returned.
        got_type_name: &'static str,
    },
    /// No node of the type that data was piped to is in the pipeline.
    NodeWithTypeNotFound {
        /// Name of the node type which could not be found.
        node_type_name: &'static str,
    },
}

impl<D> PipelineError<D> {
    /// The text that describes the error.
    pub open spec fn spec_message(&self) -> Seq<char> {
        match self {
            PipelineError::WrongOutputTypeForPipeline {
                node_type_name,
                expected_type_name,
                got_type_name,
                ..
            } => "node with type '"@ + node_type_name@
                + "' returned wrong output type for pipeline, expected: '"@ + expected_type_name@
                + "', got: '"@ + got_type_name@ + "'"@,
            PipelineError::NodeWithTypeNotFound { node_type_name } => "node with type '"@
                + node_type_name@ + "' wasn't found in pipeline"@,
        }
    }

    /// Describes the error in words.
    pub fn message(&self) -> (r: String)
        ensures
            r@ == self.spec_message(),
    {
        match self {
            PipelineError::WrongOutputTypeForPipeline {
                node_type_name,
                expected_type_name,
                got_type_name,
                ..
            } => String::from_str("node with type '").concat(node_type_name).concat(
                "' returned wrong output type for pipeline, expected: '",
            ).concat(expected_type_name).concat("', got: '").concat(got_type_name).concat("'"),
            PipelineError::NodeWithTypeNotFound { node_type_name } => String::from_str(
                "node with type '",
            ).concat(node_type_name).concat("' wasn't found in pipeline"),
        }
    }
}

} // verus!
