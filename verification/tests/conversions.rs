use orchestrator::generic::node::{
    fn_node::FnNode,
    squash_nodes::{advance_result, OrchestratorAsNode, PipelineAsNode},
    NextNode, Node, NodeOutput, ReturnFromPipelineOutput, Returnable,
};
use orchestrator::generic::orchestrator::{
    generic_orchestrator_as_node::orchestrator_result_to_node,
    generic_orchestrator_as_pipeline::orchestrator_result_to_pipeline,
    internal_pipeline::from_pipeline_output, ErrorInner, GenericOrchestrator,
    GenericOrchestratorAsNode, GenericOrchestratorAsPipeline, InternalPipelineOutput,
    InternalPipelineStruct, KeyedGenericOrchestrator, OrchestratorError,
};
use orchestrator::generic::pipeline::{
    generic_pipeline_as_node::{node_output_from, pipeline_result_to_node},
    squash_pipelines::OrchestratorAsPipeline,
    FnPipeline, GenericPipeline, GenericPipelineAsNode, PipelineOutput, PipelineStorage,
};
use orchestrator::type_key::{TypeInfo, TypeKey, TypedData};

#[derive(Debug, PartialEq)]
struct Wrapped(u32);

impl From<u8> for Wrapped {
    fn from(value: u8) -> Self {
        Wrapped(u32::from(value) + 1000)
    }
}

struct Counter;

impl Node for Counter {
    type Input = u8;
    type Output = u32;
    type Error = ();
}

#[test]
fn returnable_builds_each_output() {
    assert!(matches!(Counter::advance::<()>(7), NodeOutput::Advance(7)));
    assert!(matches!(Counter::soft_fail::<()>(), NodeOutput::SoftFail));
    assert!(matches!(
        Counter::return_from_pipeline::<&str>("early"),
        NodeOutput::ReturnFromPipeline(ReturnFromPipelineOutput("early"))
    ));
    match Counter::pipe_to::<&str>("data", TypeKey(5), "Next") {
        NodeOutput::PipeToNode(NextNode { output, next_node_type, next_node_type_name }) => {
            assert_eq!(output, "data");
            assert_eq!(next_node_type, TypeKey(5));
            assert_eq!(next_node_type_name, "Next");
        }
        _ => panic!("expected PipeToNode"),
    }
}

#[test]
fn node_output_into_result() {
    let r: Result<NodeOutput<u32, ()>, String> = Counter::advance(3).into();
    assert!(matches!(r, Ok(NodeOutput::Advance(3))));
}

#[test]
fn pipeline_output_to_node_output() {
    assert!(matches!(node_output_from::<u32, ()>(PipelineOutput::Done(4)), NodeOutput::Advance(4)));
    assert!(matches!(node_output_from::<u32, ()>(PipelineOutput::SoftFail), NodeOutput::SoftFail));
    let n: NodeOutput<u32, ()> = PipelineOutput::Done(9).into();
    assert!(matches!(n, NodeOutput::Advance(9)));
    assert!(matches!(
        pipeline_result_to_node::<u32, (), &str>(Ok(PipelineOutput::Done(1))),
        Ok(NodeOutput::Advance(1))
    ));
    assert!(matches!(
        pipeline_result_to_node::<u32, (), &str>(Ok(PipelineOutput::SoftFail)),
        Ok(NodeOutput::SoftFail)
    ));
    assert!(matches!(pipeline_result_to_node::<u32, (), &str>(Err("bad")), Err("bad")));
}

#[test]
fn wrapped_run_advances_or_fails() {
    assert!(matches!(advance_result::<u32, (), &str>(Ok(2)), Ok(NodeOutput::Advance(2))));
    assert!(matches!(advance_result::<u32, (), &str>(Err("e")), Err("e")));
}

#[test]
fn orchestrator_result_to_node_and_pipeline() {
    assert!(matches!(
        orchestrator_result_to_node::<u32, (), &str>(Ok(5)),
        Ok(NodeOutput::Advance(5))
    ));
    assert!(matches!(
        orchestrator_result_to_node::<u32, (), &str>(Err(ErrorInner::AllPipelinesSoftFailed)),
        Ok(NodeOutput::SoftFail)
    ));
    assert!(matches!(
        orchestrator_result_to_node::<u32, (), &str>(Err(ErrorInner::Other("x"))),
        Err("x")
    ));
    assert_eq!(orchestrator_result_to_pipeline::<u32, &str>(Ok(5)), Ok(PipelineOutput::Done(5)));
    assert_eq!(
        orchestrator_result_to_pipeline::<u32, &str>(Err(ErrorInner::AllPipelinesSoftFailed)),
        Ok(PipelineOutput::SoftFail)
    );
    assert_eq!(
        orchestrator_result_to_pipeline::<u32, &str>(Err(ErrorInner::Other("x"))),
        Err("x")
    );
}

#[test]
fn pipeline_output_to_orchestrator_view() {
    assert_eq!(from_pipeline_output(PipelineOutput::Done(3)), InternalPipelineOutput::Done(3));
    assert_eq!(
        from_pipeline_output::<u8>(PipelineOutput::SoftFail),
        InternalPipelineOutput::SoftFail
    );
    let converted: InternalPipelineOutput<Wrapped> = PipelineOutput::Done(7u8).into();
    assert_eq!(converted, InternalPipelineOutput::Done(Wrapped(1007)));
    let soft: InternalPipelineOutput<Wrapped> = PipelineOutput::<u8>::SoftFail.into();
    assert_eq!(soft, InternalPipelineOutput::SoftFail);
}

#[test]
fn generic_pipeline_as_node_shares_storage_only_when_asked() {
    let pipeline: GenericPipeline<u8> =
        GenericPipeline::builder(TypeInfo::new(TypeKey(1), "u8")).finish(TypeInfo::new(TypeKey(1), "u8"));
    let node = pipeline.into_node();
    assert!(!node.shares_storage());
    assert_eq!(node.pipeline().len(), 0);
    let node = node.share_pipeline_storage();
    assert!(node.shares_storage());
    let plain = GenericPipelineAsNode::new(5u8);
    assert!(!plain.shares_storage());
    assert_eq!(*plain.pipeline(), 5);
}

#[test]
fn wrapped_pipeline_runs_with_fresh_storage_unless_shared() {
    let mut caller: PipelineStorage<u32> = PipelineStorage::new();
    caller.insert(TypeKey(1), 10);
    let mut fresh: PipelineStorage<u32> = PipelineStorage::new();

    let node = GenericPipelineAsNode::new(0u8);
    {
        let storage = node.storage_for_run(&mut caller, &mut fresh);
        assert!(storage.get(TypeKey(1)).is_none());
        storage.insert(TypeKey(2), 20);
    }
    assert_eq!(caller.get(TypeKey(1)), Some(&10));
    assert!(caller.get(TypeKey(2)).is_none());
    assert_eq!(fresh.get(TypeKey(2)), Some(&20));

    let shared = GenericPipelineAsNode::new(0u8).share_pipeline_storage();
    let mut unused: PipelineStorage<u32> = PipelineStorage::new();
    {
        let storage = shared.storage_for_run(&mut caller, &mut unused);
        assert_eq!(storage.get(TypeKey(1)), Some(&10));
        storage.insert(TypeKey(3), 30);
        storage.remove(TypeKey(1));
    }
    assert_eq!(caller.get(TypeKey(3)), Some(&30));
    assert!(caller.get(TypeKey(1)).is_none());
    assert!(unused.get(TypeKey(3)).is_none());
}

#[derive(Debug, PartialEq, Clone, Copy)]
struct Verdict(Option<u8>);

impl From<Verdict> for PipelineOutput<Verdict> {
    fn from(value: Verdict) -> Self {
        match value.0 {
            Some(_) => PipelineOutput::Done(value),
            None => PipelineOutput::SoftFail,
        }
    }
}

#[test]
fn value_converts_through_pipeline_output() {
    let done: InternalPipelineOutput<Verdict> = Verdict(Some(4)).into();
    assert_eq!(done, InternalPipelineOutput::Done(Verdict(Some(4))));
    let soft: InternalPipelineOutput<Verdict> = Verdict(None).into();
    assert_eq!(soft, InternalPipelineOutput::SoftFail);
}

#[test]
fn functions_convert_into_fn_node_and_fn_pipeline() {
    let node: FnNode<u8, u8, (), fn(u8) -> u8> = FnNode::from((|x| x + 3) as fn(u8) -> u8);
    assert_eq!((node.function())(1), 4);
    let triple: fn(u8) -> u8 = |x| x * 3;
    let pipeline: FnPipeline<u8, u8, (), fn(u8) -> u8> = triple.into();
    assert_eq!((pipeline.function())(2), 6);
}

#[test]
fn wrappers_hold_what_they_wrap() {
    assert_eq!(*PipelineAsNode::new(1u8).pipeline(), 1);
    assert_eq!(*OrchestratorAsNode::new(2u8).orchestrator(), 2);
    assert_eq!(*OrchestratorAsPipeline::new(3u8).orchestrator(), 3);
    assert_eq!(*InternalPipelineStruct::new(4u8).pipeline(), 4);
    assert_eq!(*GenericOrchestratorAsNode::new(5u8).orchestrator(), 5);
    assert_eq!(*GenericOrchestratorAsPipeline::new(6u8).orchestrator(), 6);
    let f = FnNode::<u8, u8, (), fn(u8) -> u8>::new(|x| x + 1);
    assert_eq!((f.function())(1), 2);
    let g = f.clone();
    assert_eq!((g.function())(2), 3);
    let p = FnPipeline::<u8, u8, (), fn(u8) -> u8>::new(|x| x * 2);
    assert_eq!((p.clone().function())(4), 8);
}

#[test]
fn orchestrators_convert_into_wrappers() {
    let mut orchestrator: GenericOrchestrator<u8> = GenericOrchestrator::new();
    orchestrator.add_pipeline(1);
    orchestrator.add_pipeline(2);
    let node = orchestrator.into_node();
    assert_eq!(node.orchestrator().len(), 2);
    assert_eq!(*node.orchestrator().pipeline(1), 2);
    let pipeline = GenericOrchestrator::<u8>::new().into_pipeline();
    assert_eq!(pipeline.orchestrator().len(), 0);
    let mut keyed: KeyedGenericOrchestrator<u8, ()> = KeyedGenericOrchestrator::new(());
    keyed.add_pipeline(3, 30);
    assert_eq!(keyed.into_node().orchestrator().bucket_len(3), 1);
    let keyed: KeyedGenericOrchestrator<u8, ()> = KeyedGenericOrchestrator::new(());
    assert_eq!(keyed.into_pipeline().orchestrator().bucket_len(3), 0);
    assert_eq!(OrchestratorError::AllPipelinesSoftFailed, OrchestratorError::AllPipelinesSoftFailed);
}

#[test]
fn type_info_compares_by_key() {
    let a = TypeInfo::new(TypeKey(1), "a");
    let b = TypeInfo::new(TypeKey(1), "another name");
    let c = TypeInfo::new(TypeKey(2), "a");
    assert!(a.same_type(&b));
    assert!(!a.same_type(&c));
    let d = TypedData::new(7u8, c);
    assert_eq!(d.value, 7);
    assert_eq!(d.ty.key, TypeKey(2));
}
