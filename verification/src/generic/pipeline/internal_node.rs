use vstd::prelude::*;

use crate::generic::node::NodeOutput;
use crate::type_key::{TypeInfo, TypedData};

verus! {

/// The types a node of a pipeline works with.
#[derive(Debug, Clone, Copy)]
pub struct NodeSignature {
    /// Type of the node itself.
    pub node: TypeInfo,
    /// Type the node takes as input.
    pub input: TypeInfo,
    /// Type the node outputs when it advances.
    pub output: TypeInfo,
}

/// What running a node of a pipeline yields, with the outputs type-erased.
#[derive(Debug)]
pub enum InternalNodeOutput<D> {
    /// The node ran and returned this output.
    NodeOutput(NodeOutput<TypedData<D>, TypedData<D>>),
    /// The data handed to the node was not of a type it takes.
    WrongInputType,
}

/// A node as the pipeline holds it: the node, its types, and the type of the data
/// it gets when the pipeline advances into it.
#[derive(Debug)]
pub struct InternalNodeStruct<N> {
    /// The node.
    pub node: N,
    /// The types the node works with.
    pub signature: NodeSignature,
    /// Output type of the node before it (or the pipeline input, for the first
    /// node); the node converts data of this type into its input.
    pub previous_output: TypeInfo,
}

impl<N> InternalNodeStruct<N> {
    /// Pairs `node` with its types.
    pub fn new(node: N, signature: NodeSignature, previous_output: TypeInfo) -> (r: Self)
        ensures
            r.node == node,
            r.signature == signature,
            r.previous_output == previous_output,
    {
        InternalNodeStruct { node, signature, previous_output }
    }

    /// The type of data the node decodes: its input type for piped data, otherwise
    /// the output type of the node before it.
    pub open spec fn expected_input(&self, piped: bool) -> TypeInfo {
        if piped {
            self.signature.input
        } else {
            self.previous_output
        }
    }

    /// Takes the input the node runs on out of `input`: the data itself when it has
    /// the type the node expects, nothing otherwise.
    pub fn get_input<D>(&self, input: TypedData<D>, piped: bool) -> (r: Option<D>)
        ensures
            r == (if input.ty.key == self.expected_input(piped).key {
                Some(input.value)
            } else {
                None::<D>
            }),
    {
        let expected = if piped {
            self.signature.input.key
        } else {
            self.previous_output.key
        };
        if input.ty.key == expected {
            Some(input.value)
        } else {
            None
        }
    }
}

} // verus!
