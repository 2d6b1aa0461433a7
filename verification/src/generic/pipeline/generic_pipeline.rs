use vstd::prelude::*;

use super::error::PipelineError;
use super::internal_node::{InternalNodeOutput, InternalNodeStruct, NodeSignature};
use crate::generic::node::{NextNode, NodeOutput, ReturnFromPipelineOutput};
use crate::type_key::{TypeInfo, TypeKey, TypedData};

verus! {

/// Each node takes, when the pipeline advances into it, the output type of the
/// node before it; the first node takes the pipeline input. (The number of nodes
/// fits in a `usize`.)
pub open spec fn chained<N>(nodes: Seq<InternalNodeStruct<N>>, input: TypeInfo) -> bool {
    &&& nodes.len() <= usize::MAX
    &&& nodes.len() > 0 ==> nodes[0].previous_output == input
    &&& forall|i: int|
        1 <= i < nodes.len() ==> #[trigger] nodes[i].previous_output == nodes[i
            - 1].signature.output
}

/// Type of the data that comes out of the last node (the pipeline input when
/// there is no node).
pub open spec fn chain_end<N>(nodes: Seq<InternalNodeStruct<N>>, input: TypeInfo) -> TypeInfo {
    if nodes.len() == 0 {
        input
    } else {
        nodes.last().signature.output
    }
}

/// `i` is the first position of `ty` in `s`.
pub open spec fn is_first_of(s: Seq<TypeKey>, ty: TypeKey, i: int) -> bool {
    &&& 0 <= i < s.len()
    &&& s[i] == ty
    &&& forall|j: int| 0 <= j < i ==> s[j] != ty
}

/// The first position of `ty` in `s`, if it occurs there.
pub open spec fn first_index_of(s: Seq<TypeKey>, ty: TypeKey) -> Option<int> {
    if exists|i: int| is_first_of(s, ty, i) {
        Some(choose|i: int| is_first_of(s, ty, i))
    } else {
        None
    }
}

/// Builder for [`GenericPipeline`]: nodes are added in the order they run.
#[derive(Debug)]
pub struct GenericPipelineBuilder<N> {
    input: TypeInfo,
    next_node_input: TypeInfo,
    nodes: Vec<InternalNodeStruct<N>>,
}

impl<N> GenericPipelineBuilder<N> {
    #[verifier::type_invariant]
    closed spec fn inv(self) -> bool {
        &&& chained(self.nodes@, self.input)
        &&& self.next_node_input == chain_end(self.nodes@, self.input)
    }

    /// Input type of the pipeline being built.
    pub closed spec fn input_view(&self) -> TypeInfo {
        self.input
    }

    /// Type of the data that the next node added gets when the pipeline advances into it.
    pub closed spec fn next_node_input_view(&self) -> TypeInfo {
        self.next_node_input
    }

    /// Nodes added so far, in order.
    pub closed spec fn nodes_view(&self) -> Seq<InternalNodeStruct<N>> {
        self.nodes@
    }

    /// Creates a builder for a pipeline that takes input of type `input`.
    pub fn new(input: TypeInfo) -> (r: Self)
        ensures
            r.input_view() == input,
            r.next_node_input_view() == input,
            r.nodes_view() == Seq::<InternalNodeStruct<N>>::empty(),
    {
        GenericPipelineBuilder { input, next_node_input: input, nodes: Vec::new() }
    }

    /// Adds a node to the end of the pipeline.
    ///
    /// The node gets the output of the node added before it (or the pipeline input)
    /// when the pipeline advances into it.
    pub fn add_node(self, node: N, signature: NodeSignature) -> (r: Self)
        ensures
            r.input_view() == self.input_view(),
            r.nodes_view() == self.nodes_view().push(
                InternalNodeStruct { node, signature, previous_output: self.next_node_input_view() },
            ),
            r.next_node_input_view() == signature.output,
    {
        proof {
            use_type_invariant(&self);
        }
        let GenericPipelineBuilder { input, next_node_input, mut nodes } = self;
        let ghost old_nodes = nodes@;
        nodes.push(InternalNodeStruct::new(node, signature, next_node_input));
        // Reading the length records that the number of nodes fits in a `usize`.
        let node_count = nodes.len();
        assert(node_count == nodes@.len());
        proof {
            assert forall|i: int| 1 <= i < nodes@.len() implies #[trigger] nodes@[i].previous_output
                == nodes@[i - 1].signature.output by {
                if i < nodes@.len() - 1 {
                    assert(nodes@[i] == old_nodes[i]);
                    assert(nodes@[i - 1] == old_nodes[i - 1]);
                }
            }
        }
        GenericPipelineBuilder { input, next_node_input: signature.output, nodes }
    }

    /// Finishes the pipeline, whose output has type `output`; no node can be added to it after.
    ///
    /// The output of the last node is converted into the pipeline output.
    pub fn finish(self, output: TypeInfo) -> (r: GenericPipeline<N>)
        ensures
            r.wf(),
            r.input_view() == self.input_view(),
            r.output_view() == output,
            r.last_node_output_view() == self.next_node_input_view(),
            r.nodes_view() == self.nodes_view(),
    {
        proof {
            use_type_invariant(&self);
        }
        let GenericPipelineBuilder { input, next_node_input, nodes } = self;
        GenericPipeline { input, output, last_node_output: next_node_input, nodes }
    }
}

/// A pipeline of nodes, built with [`GenericPipelineBuilder`].
///
/// A run starts at the first node with the pipeline input. After each node the
/// pipeline advances to the next node, jumps to the first node of the type the
/// output was piped to, returns early, or soft fails; running past the last node
/// finishes the pipeline with that node's output.
#[derive(Debug)]
pub struct GenericPipeline<N> {
    input: TypeInfo,
    output: TypeInfo,
    last_node_output: TypeInfo,
    nodes: Vec<InternalNodeStruct<N>>,
}

/// The next thing a running pipeline does.
#[derive(Debug)]
pub enum PipelineStep<D, E> {
    /// Run the node at `index` on `input`; `piped` says whether the data was piped
    /// to it (otherwise the pipeline advanced into it).
    RunNode { index: usize, input: TypedData<D>, piped: bool },
    /// The pipeline soft failed.
    SoftFail,
    /// The last node advanced: its output, converted into the pipeline output, is the result.
    Finished(TypedData<D>),
    /// A node returned this data, which has the pipeline output type, early.
    ReturnedEarly(TypedData<D>),
    /// A node failed with this error.
    NodeFailed(E),
    /// The pipeline failed with this error.
    Failed(PipelineError<D>),
}

impl<N> GenericPipeline<N> {
    #[verifier::type_invariant]
    closed spec fn inv(self) -> bool {
        &&& chained(self.nodes@, self.input)
        &&& self.last_node_output == chain_end(self.nodes@, self.input)
    }

    /// Input type of the pipeline.
    pub closed spec fn input_view(&self) -> TypeInfo {
        self.input
    }

    /// Output type of the pipeline.
    pub closed spec fn output_view(&self) -> TypeInfo {
        self.output
    }

    /// Output type of the last node, which is converted into the pipeline output.
    pub closed spec fn last_node_output_view(&self) -> TypeInfo {
        self.last_node_output
    }

    /// The nodes, in order.
    pub closed spec fn nodes_view(&self) -> Seq<InternalNodeStruct<N>> {
        self.nodes@
    }

    /// The types of the nodes chain from the pipeline input to the last node output.
    pub open spec fn wf(&self) -> bool {
        &&& chained(self.nodes_view(), self.input_view())
        &&& self.last_node_output_view() == chain_end(self.nodes_view(), self.input_view())
    }

    /// The node types, in order.
    pub open spec fn node_types(&self) -> Seq<TypeKey> {
        self.nodes_view().map_values(|n: InternalNodeStruct<N>| n.signature.node.key)
    }

    /// Creates a builder for a pipeline that takes input of type `input`.
    pub fn builder(input: TypeInfo) -> (r: GenericPipelineBuilder<N>)
        ensures
            r.input_view() == input,
            r.next_node_input_view() == input,
            r.nodes_view() == Seq::<InternalNodeStruct<N>>::empty(),
    {
        GenericPipelineBuilder::new(input)
    }

    /// Number of nodes.
    ///
    /// (Every pipeline is well formed, which this also records for the caller.)
    pub fn len(&self) -> (r: usize)
        ensures
            r == self.nodes_view().len(),
            self.wf(),
    {
        proof {
            use_type_invariant(self);
        }
        self.nodes.len()
    }

    /// Input type of the pipeline.
    pub fn input_type(&self) -> (r: TypeInfo)
        ensures
            r == self.input_view(),
    {
        self.input
    }

    /// Output type of the pipeline.
    pub fn output_type(&self) -> (r: TypeInfo)
        ensures
            r == self.output_view(),
    {
        self.output
    }

    /// The node at `index`, with its types.
    pub fn node(&self, index: usize) -> (r: &InternalNodeStruct<N>)
        requires
            index < self.nodes_view().len(),
        ensures
            *r == self.nodes_view()[index as int],
    {
        &self.nodes[index]
    }

    /// Position of the first node of type `ty`, if the pipeline has one.
    pub fn get_node_index(&self, ty: TypeKey) -> (r: Option<usize>)
        ensures
            match first_index_of(self.node_types(), ty) {
                Some(i) => r == Some(i as usize),
                None => r is None,
            },
    {
        let ghost s = self.node_types();
        let mut i: usize = 0;
        while i < self.nodes.len()
            invariant
                s == self.node_types(),
                s.len() == self.nodes@.len(),
                i <= s.len(),
                forall|j: int| 0 <= j < i ==> s[j] != ty,
            decreases s.len() - i,
        {
            if self.nodes[i].signature.node.key == ty {
                proof {
                    assert(s[i as int] == ty);
                    assert(is_first_of(s, ty, i as int));
                    let c = choose|c: int| is_first_of(s, ty, c);
                    assert(c == i as int) by {
                        if c < i as int {
                            assert(s[c] != ty);
                        }
                        if c > i as int {
                            assert(s[i as int] != ty);
                        }
                    }
                }
                return Some(i);
            }
            i = i + 1;
        }
        proof {
            assert forall|c: int| !is_first_of(s, ty, c) by {
                if 0 <= c < s.len() {
                    assert(s[c] != ty);
                }
            }
        }
        None
    }

    /// The step that starts a run on `input`: running the first node.
    pub open spec fn spec_start<D, E>(&self, input: D) -> PipelineStep<D, E> {
        PipelineStep::RunNode {
            index: 0,
            input: TypedData { value: input, ty: self.input_view() },
            piped: false,
        }
    }

    /// Starts a run of the pipeline on `input`.
    pub fn start<D, E>(&self, input: D) -> (r: PipelineStep<D, E>)
        requires
            self.nodes_view().len() > 0,
        ensures
            r == self.spec_start::<D, E>(input),
    {
        PipelineStep::RunNode { index: 0, input: TypedData::new(input, self.input), piped: false }
    }

    /// What data returned early by the node at `index` makes of the pipeline: its
    /// result when the data has the pipeline output type, an error otherwise.
    pub open spec fn spec_pipeline_output<D, E>(&self, index: int, data: TypedData<D>) -> PipelineStep<D, E> {
        if data.ty.key == self.output_view().key {
            PipelineStep::ReturnedEarly(data)
        } else {
            PipelineStep::Failed(
                PipelineError::WrongOutputTypeForPipeline {
                    node_type_name: self.nodes_view()[index].signature.node.name,
                    data: data.value,
                    expected_type_name: self.output_view().name,
                    got_type_name: data.ty.name,
                },
            )
        }
    }

    /// Checks data that the node at `index` returned from the pipeline early
    /// against the pipeline output type.
    pub fn get_pipeline_output<D, E>(&self, index: usize, data: TypedData<D>) -> (r: PipelineStep<D, E>)
        requires
            index < self.nodes_view().len(),
        ensures
            r == self.spec_pipeline_output::<D, E>(index as int, data),
    {
        if data.ty.key == self.output.key {
            PipelineStep::ReturnedEarly(data)
        } else {
            let TypedData { value, ty } = data;
            PipelineStep::Failed(
                PipelineError::WrongOutputTypeForPipeline {
                    node_type_name: self.nodes[index].signature.node.name,
                    data: value,
                    expected_type_name: self.output.name,
                    got_type_name: ty.name,
                },
            )
        }
    }

    /// The step after the node at `index` ran and yielded `event`.
    pub open spec fn spec_next_step<D, E>(
        &self,
        index: int,
        event: Result<InternalNodeOutput<D>, E>,
    ) -> PipelineStep<D, E> {
        match event {
            Err(e) => PipelineStep::NodeFailed(e),
            Ok(InternalNodeOutput::WrongInputType) => arbitrary(),
            Ok(InternalNodeOutput::NodeOutput(output)) => match output {
                NodeOutput::SoftFail => PipelineStep::SoftFail,
                NodeOutput::ReturnFromPipeline(ReturnFromPipelineOutput(data)) => self.spec_pipeline_output(
                    index,
                    data,
                ),
                NodeOutput::PipeToNode(next) => match first_index_of(
                    self.node_types(),
                    next.next_node_type,
                ) {
                    Some(j) => PipelineStep::RunNode {
                        index: j as usize,
                        input: next.output,
                        piped: true,
                    },
                    None => PipelineStep::Failed(
                        PipelineError::NodeWithTypeNotFound {
                            node_type_name: next.next_node_type_name,
                        },
                    ),
                },
                NodeOutput::Advance(data) => if index + 1 >= self.nodes_view().len() {
                    PipelineStep::Finished(data)
                } else {
                    PipelineStep::RunNode { index: (index + 1) as usize, input: data, piped: false }
                },
            },
        }
    }

    /// Decides what the pipeline does after the node at `index` ran and yielded `event`.
    pub fn next_step<D, E>(&self, index: usize, event: Result<InternalNodeOutput<D>, E>) -> (r:
        PipelineStep<D, E>)
        requires
            index < self.nodes_view().len(),
            !(event matches Ok(InternalNodeOutput::WrongInputType)),
        ensures
            r == self.spec_next_step(index as int, event),
    {
        match event {
            Err(e) => PipelineStep::NodeFailed(e),
            Ok(InternalNodeOutput::WrongInputType) => {
                proof {
                    assert(false);
                }
                PipelineStep::SoftFail
            },
            Ok(InternalNodeOutput::NodeOutput(output)) => match output {
                NodeOutput::SoftFail => PipelineStep::SoftFail,
                NodeOutput::ReturnFromPipeline(ReturnFromPipelineOutput(data)) => {
                    self.get_pipeline_output(index, data)
                },
                NodeOutput::PipeToNode(NextNode { output, next_node_type, next_node_type_name }) => {
                    match self.get_node_index(next_node_type) {
                        Some(j) => PipelineStep::RunNode { index: j, input: output, piped: true },
                        None => PipelineStep::Failed(
                            PipelineError::NodeWithTypeNotFound { node_type_name: next_node_type_name },
                        ),
                    }
                },
                NodeOutput::Advance(data) => {
                    if index >= self.nodes.len() - 1 {
                        PipelineStep::Finished(data)
                    } else {
                        PipelineStep::RunNode { index: index + 1, input: data, piped: false }
                    }
                },
            },
        }
    }

    /// `event` is what the node at `index` can yield: data it advances with has its
    /// output type, and data it pipes to a node type has the input type of the
    /// nodes of that type.
    pub open spec fn event_well_typed<D, E>(
        &self,
        index: int,
        event: Result<InternalNodeOutput<D>, E>,
    ) -> bool {
        match event {
            Ok(InternalNodeOutput::WrongInputType) => false,
            Ok(InternalNodeOutput::NodeOutput(NodeOutput::Advance(data))) => data.ty.key
                == self.nodes_view()[index].signature.output.key,
            Ok(InternalNodeOutput::NodeOutput(NodeOutput::PipeToNode(next))) => forall|j: int|
                0 <= j < self.nodes_view().len() && #[trigger] self.node_types()[j]
                    == next.next_node_type ==> self.nodes_view()[j].signature.input.key
                    == next.output.ty.key,
            _ => true,
        }
    }

    /// A run starts on data that the first node takes.
    ///
    /// (`len` gives `wf` for any pipeline.)
    ///
    /// The first node gets the pipeline input itself, as advanced (not piped) data of
    /// the pipeline input type, which is the type it converts into its input.
    pub proof fn lemma_start_well_typed<D, E>(&self, input: D)
        requires
            self.wf(),
            self.nodes_view().len() > 0,
        ensures
            self.spec_start::<D, E>(input) matches PipelineStep::RunNode { index, input: data, piped }
                && index == 0 && data.ty.key == self.nodes_view()[0].expected_input(piped).key
                && !piped && data.value == input && data.ty == self.input_view(),
    {
    }

    /// Type safety of a run: when every node yields only what its types allow, every
    /// node the pipeline runs next gets data of the type it decodes, and the data a
    /// run finishes with has the last node output type, which converts into the
    /// pipeline output.
    ///
    /// So a node never reports a wrong input type, and converting the last node
    /// output never fails.
    pub proof fn lemma_step_well_typed<D, E>(
        &self,
        index: int,
        event: Result<InternalNodeOutput<D>, E>,
    )
        requires
            self.wf(),
            0 <= index < self.nodes_view().len(),
            self.event_well_typed(index, event),
        ensures
            match self.spec_next_step(index, event) {
                PipelineStep::RunNode { index: next, input, piped } => {
                    &&& next < self.nodes_view().len()
                    &&& input.ty.key == self.nodes_view()[next as int].expected_input(piped).key
                },
                PipelineStep::Finished(data) => data.ty.key == self.last_node_output_view().key,
                PipelineStep::ReturnedEarly(data) => data.ty.key == self.output_view().key,
                _ => true,
            },
    {
        let nodes = self.nodes_view();
        match event {
            Ok(InternalNodeOutput::NodeOutput(NodeOutput::PipeToNode(next))) => {
                let s = self.node_types();
                if let Some(j) = first_index_of(s, next.next_node_type) {
                    assert(is_first_of(s, next.next_node_type, j));
                    assert(s[j] == nodes[j].signature.node.key);
                    assert(self.node_types()[j] == next.next_node_type);
                    assert((j as usize) as int == j);
                }
            },
            Ok(InternalNodeOutput::NodeOutput(NodeOutput::Advance(data))) => {
                if index + 1 < nodes.len() {
                    assert(nodes[index + 1].previous_output == nodes[index + 1 - 1].signature.output);
                }
            },
            _ => {},
        }
    }

    /// The step after the node at `index` ran and yielded `output`.
    pub open spec fn step_after_output<D, E>(
        &self,
        index: int,
        output: NodeOutput<TypedData<D>, TypedData<D>>,
    ) -> PipelineStep<D, E> {
        self.spec_next_step(index, Ok(InternalNodeOutput::NodeOutput(output)))
    }

    /// A node that advances hands its output to the node right after it: after the
    /// node at `index` advances with `data`, the next node runs on `data`, not piped;
    /// only after the last node does the run finish, with `data`.
    pub proof fn lemma_advance_runs_next_node<D, E>(&self, index: int, data: TypedData<D>)
        requires
            0 <= index < self.nodes_view().len(),
        ensures
            index + 1 < self.nodes_view().len() ==> self.step_after_output::<D, E>(
                index,
                NodeOutput::Advance(data),
            ) == (PipelineStep::<D, E>::RunNode { index: (index + 1) as usize, input: data, piped: false }),
            index + 1 == self.nodes_view().len() ==> self.step_after_output::<D, E>(
                index,
                NodeOutput::Advance(data),
            ) == PipelineStep::<D, E>::Finished(data),
    {
    }

    /// `first_index_of` is the least position holding the type, and none when no
    /// position holds it.
    pub proof fn lemma_first_index_of_is_least(s: Seq<TypeKey>, ty: TypeKey, j: int)
        ensures
            is_first_of(s, ty, j) <==> first_index_of(s, ty) == Some(j),
            (forall|k: int| 0 <= k < s.len() ==> s[k] != ty) <==> (first_index_of(s, ty) is None),
    {
        if is_first_of(s, ty, j) {
            let c = choose|c: int| is_first_of(s, ty, c);
            assert(c == j) by {
                if c < j {
                    assert(s[c] != ty);
                }
                if c > j {
                    assert(s[j] != ty);
                }
            }
        }
        if forall|k: int| 0 <= k < s.len() ==> s[k] != ty {
            assert forall|c: int| !is_first_of(s, ty, c) by {
                if 0 <= c < s.len() {
                    assert(s[c] != ty);
                }
            }
        } else {
            let k = choose|k: int| 0 <= k < s.len() && s[k] == ty;
            lemma_some_first(s, ty, k);
        }
    }

    /// Data piped to a node type goes to the first node of that type: when the node
    /// at position `j` has type `next.next_node_type` and no node before it has,
    /// the node at `j` runs next on the piped data. When no node has that type the
    /// pipeline fails, naming the type.
    pub proof fn lemma_pipe_runs_first_node_of_type<D, E>(
        &self,
        index: int,
        next: NextNode<TypedData<D>>,
        j: int,
    )
        requires
            0 <= index < self.nodes_view().len(),
        ensures
            self.first_node_of_type(next.next_node_type, j) ==> self.step_after_output::<D, E>(
                index,
                NodeOutput::PipeToNode(next),
            ) == (PipelineStep::<D, E>::RunNode { index: j as usize, input: next.output, piped: true }),
            self.no_node_of_type(next.next_node_type) ==> self.step_after_output::<D, E>(
                index,
                NodeOutput::PipeToNode(next),
            ) == PipelineStep::<D, E>::Failed(
                (PipelineError::NodeWithTypeNotFound { node_type_name: next.next_node_type_name }),
            ),
    {
        let s = self.node_types();
        let t = next.next_node_type;
        Self::lemma_first_index_of_is_least(s, t, j);
        if self.first_node_of_type(t, j) {
            assert(is_first_of(s, t, j));
        }
        if self.no_node_of_type(t) {
            assert forall|k: int| 0 <= k < s.len() implies s[k] != t by {
                assert(s[k] == self.nodes_view()[k].signature.node.key);
            }
        }
    }

    /// The node at `j` has type `ty` and no node before it has.
    pub open spec fn first_node_of_type(&self, ty: TypeKey, j: int) -> bool {
        &&& 0 <= j < self.nodes_view().len()
        &&& self.nodes_view()[j].signature.node.key == ty
        &&& forall|k: int| 0 <= k < j ==> #[trigger] self.nodes_view()[k].signature.node.key != ty
    }

    /// No node has type `ty`.
    pub open spec fn no_node_of_type(&self, ty: TypeKey) -> bool {
        forall|k: int|
            0 <= k < self.nodes_view().len() ==> #[trigger] self.nodes_view()[k].signature.node.key != ty
    }

    /// Data of the pipeline output type returned early by any node is the result of
    /// the run, whichever node returned it; data of another type fails the pipeline
    /// with the node, the expected and the actual type named.
    pub proof fn lemma_early_return<D, E>(&self, index: int, data: TypedData<D>)
        requires
            0 <= index < self.nodes_view().len(),
        ensures
            self.step_after_output::<D, E>(
                index,
                NodeOutput::ReturnFromPipeline(ReturnFromPipelineOutput(data)),
            ) == self.spec_pipeline_output::<D, E>(index, data),
            data.ty.key == self.output_view().key ==> self.spec_pipeline_output::<D, E>(index, data)
                == PipelineStep::<D, E>::ReturnedEarly(data),
            data.ty.key != self.output_view().key ==> self.spec_pipeline_output::<D, E>(index, data)
                == PipelineStep::<D, E>::Failed(
                (PipelineError::WrongOutputTypeForPipeline {
                    node_type_name: self.nodes_view()[index].signature.node.name,
                    data: data.value,
                    expected_type_name: self.output_view().name,
                    got_type_name: data.ty.name,
                }),
            ),
    {
    }

    /// A node that soft fails soft fails the whole pipeline, whichever node it is.
    pub proof fn lemma_soft_fail_from_any_node<D, E>(&self, index: int)
        requires
            0 <= index < self.nodes_view().len(),
        ensures
            self.step_after_output::<D, E>(index, NodeOutput::SoftFail) == PipelineStep::<D, E>::SoftFail,
    {
    }

    /// A node's error stops the run and is the pipeline's error, whichever node failed.
    pub proof fn lemma_node_error_fails_pipeline<D, E>(&self, index: int, e: E)
        requires
            0 <= index < self.nodes_view().len(),
        ensures
            self.spec_next_step::<D, E>(index, Err(e)) == PipelineStep::<D, E>::NodeFailed(e),
    {
    }
}

/// When `ty` occurs in `s` at `k`, it has a first position, at or before `k`.
proof fn lemma_some_first(s: Seq<TypeKey>, ty: TypeKey, k: int)
    requires
        0 <= k < s.len(),
        s[k] == ty,
    ensures
        exists|c: int| is_first_of(s, ty, c),
    decreases k,
{
    if forall|m: int| 0 <= m < k ==> s[m] != ty {
        assert(is_first_of(s, ty, k));
    } else {
        let m = choose|m: int| 0 <= m < k && s[m] == ty;
        lemma_some_first(s, ty, m);
    }
}

/// The nodes of one run of a pipeline.
///
/// A run works on its own copies of the pipeline's nodes: the first time the run
/// reaches a node it takes a fresh clone of the pipeline's node, and every later
/// visit in the same run reuses that copy, with whatever state the node kept. Each
/// run starts with no copies.
#[derive(Debug)]
pub struct PipelineRun<N> {
    nodes: Vec<Option<N>>,
}

impl<N> PipelineRun<N> {
    /// For each node of the pipeline, the run's copy of it, if the run has reached it.
    pub closed spec fn slots_view(&self) -> Seq<Option<N>> {
        self.nodes@
    }

    /// Whether `r` is what `take_node(pipeline, index)` may hand out from this run:
    /// the copy kept at `index`, or, when there is none, a clone of the pipeline's node.
    pub open spec fn takes(&self, pipeline: &GenericPipeline<N>, index: int, r: N) -> bool where
        N: Clone,
     {
        match self.slots_view()[index] {
            Some(node) => r == node,
            None => vstd::pervasive::cloned::<N>(pipeline.nodes_view()[index].node, r),
        }
    }

    /// Starts a run of a pipeline with `node_count` nodes: no node has been copied yet.
    pub fn new(node_count: usize) -> (r: Self)
        ensures
            r.slots_view().len() == node_count,
            forall|i: int| 0 <= i < node_count ==> r.slots_view()[i] is None,
    {
        let mut nodes: Vec<Option<N>> = Vec::new();
        let mut i: usize = 0;
        while i < node_count
            invariant
                i <= node_count,
                nodes@.len() == i,
                forall|j: int| 0 <= j < i ==> nodes@[j] is None,
            decreases node_count - i,
        {
            nodes.push(None);
            i = i + 1;
        }
        PipelineRun { nodes }
    }

    /// Takes the run's copy of the node at `index` to run it: the copy kept from an
    /// earlier visit, or a fresh clone of the pipeline's node on the first visit.
    pub fn take_node(&mut self, pipeline: &GenericPipeline<N>, index: usize) -> (r: N) where
        N: Clone,
        requires
            index < old(self).slots_view().len(),
            old(self).slots_view().len() == pipeline.nodes_view().len(),
        ensures
            old(self).takes(pipeline, index as int, r),
            final(self).slots_view() == old(self).slots_view().update(index as int, None),
    {
        let mut slot: Option<N> = None;
        std::mem::swap(&mut slot, &mut self.nodes[index]);
        match slot {
            Some(node) => node,
            None => pipeline.node(index).node.clone(),
        }
    }

    /// Within one run a node keeps its state between visits: after `put_back(index,
    /// node)` turned the run `self` into `after`, what the next `take_node(index)` on
    /// `after` hands out is `node` itself, not a fresh clone, whatever the pipeline;
    /// and the copies of the other nodes are as they were in `self`.
    pub proof fn lemma_take_after_put_back(
        &self,
        after: &Self,
        pipeline: &GenericPipeline<N>,
        index: int,
        node: N,
        other: int,
    ) where N: Clone
        requires
            0 <= index < self.slots_view().len(),
            after.slots_view() == self.slots_view().update(index, Some(node)),
        ensures
            forall|r: N| after.takes(pipeline, index, r) <==> r == node,
            0 <= other < self.slots_view().len() && other != index ==> after.slots_view()[other]
                == self.slots_view()[other],
    {
    }

    /// Keeps `node`, after it ran, as the run's copy of the node at `index`.
    pub fn put_back(&mut self, index: usize, node: N)
        requires
            index < old(self).slots_view().len(),
        ensures
            final(self).slots_view() == old(self).slots_view().update(index as int, Some(node)),
    {
        self.nodes.set(index, Some(node));
    }
}

} // verus!
