use orchestrator::generic::node::{Node, Returnable};
use orchestrator::generic::orchestrator::{
    ErrorInner, GenericOrchestrator, InternalPipelineOutput, KeyedGenericOrchestrator,
    OrchestratorStep,
};
use orchestrator::generic::pipeline::{
    GenericPipeline, InternalNodeOutput, NodeSignature, PipelineError, PipelineOutput,
    PipelineRun, PipelineStep, PipelineStorage,
};
use orchestrator::type_key::{TypeInfo, TypeKey, TypedData};

#[derive(Debug, Clone, PartialEq)]
enum Value {
    Str(String),
    IsOk(String),
    Unit,
    Count(usize),
}

fn string_ty() -> TypeInfo {
    TypeInfo::new(TypeKey(1), "alloc::string::String")
}
fn is_ok_ty() -> TypeInfo {
    TypeInfo::new(TypeKey(2), "generics::IsOk")
}
fn unit_ty() -> TypeInfo {
    TypeInfo::new(TypeKey(3), "()")
}
fn usize_ty() -> TypeInfo {
    TypeInfo::new(TypeKey(4), "usize")
}

const MY_VAL: TypeKey = TypeKey(100);

#[derive(Debug, Clone)]
enum TestNode {
    StringMatcher(&'static str),
    StringForwarder,
    RepeatPipeToStringForwarder { times: usize },
    UnitToStringEarlyReturnString,
    StringToUnitEarlyReturnUnit,
    StringToIsOk,
    IsOkToString,
    Failing,
    StoreZero,
    IncrementStored,
    TakeStored,
}

#[derive(Debug, Clone, PartialEq)]
struct NodeError;

impl Node for TestNode {
    type Input = Value;
    type Output = TypedData<Value>;
    type Error = NodeError;
}

fn node_info(name: &'static str, key: u64) -> TypeInfo {
    TypeInfo::new(TypeKey(key), name)
}

impl TestNode {
    fn signature(&self) -> NodeSignature {
        let (node, input, output) = match self {
            TestNode::StringMatcher(_) => (node_info("generics::StringMatcher", 10), string_ty(), string_ty()),
            TestNode::StringForwarder => (node_info("generics::StringForwarder", 11), string_ty(), string_ty()),
            TestNode::RepeatPipeToStringForwarder { .. } => (
                node_info("generics::RepeatPipeToStringForwarder", 12),
                string_ty(),
                string_ty(),
            ),
            TestNode::UnitToStringEarlyReturnString => (
                node_info("generics::UnitToStringEarlyReturnString", 13),
                unit_ty(),
                string_ty(),
            ),
            TestNode::StringToUnitEarlyReturnUnit => (
                node_info("generics::StringToUnitEarlyReturnUnit", 14),
                string_ty(),
                unit_ty(),
            ),
            TestNode::StringToIsOk => (node_info("generics::StringToIsOk", 15), string_ty(), is_ok_ty()),
            TestNode::IsOkToString => (node_info("generics::IsOkToString", 16), is_ok_ty(), string_ty()),
            TestNode::Failing => (node_info("generics::Failing", 17), string_ty(), string_ty()),
            TestNode::StoreZero => (node_info("generics::StoreZero", 18), unit_ty(), unit_ty()),
            TestNode::IncrementStored => (node_info("generics::IncrementStored", 19), unit_ty(), unit_ty()),
            TestNode::TakeStored => (node_info("generics::TakeStored", 20), unit_ty(), usize_ty()),
        };
        NodeSignature { node, input, output }
    }

    fn run(
        &mut self,
        input: Value,
        storage: &mut PipelineStorage<usize>,
    ) -> Result<InternalNodeOutput<Value>, NodeError> {
        let out = match (self, input) {
            (TestNode::StoreZero, Value::Unit) => {
                storage.insert(MY_VAL, 0);
                Self::advance(TypedData::new(Value::Unit, unit_ty()))
            }
            (TestNode::IncrementStored, Value::Unit) => {
                let my_val = storage.get_mut(MY_VAL).unwrap();
                *my_val += 1;
                Self::advance(TypedData::new(Value::Unit, unit_ty()))
            }
            (TestNode::TakeStored, Value::Unit) => {
                let my_val = storage.remove(MY_VAL).unwrap();
                Self::advance(TypedData::new(Value::Count(my_val), usize_ty()))
            }
            (TestNode::StringMatcher(pattern), Value::Str(s)) => {
                if !s.contains(*pattern) {
                    Self::soft_fail()
                } else {
                    Self::advance(TypedData::new(Value::Str(s), string_ty()))
                }
            }
            (TestNode::StringForwarder, Value::Str(s)) => {
                Self::advance(TypedData::new(Value::Str(s), string_ty()))
            }
            (TestNode::RepeatPipeToStringForwarder { times }, Value::Str(s)) => {
                if *times == 0 {
                    Self::return_from_pipeline(TypedData::new(Value::Str(s), string_ty()))
                } else {
                    *times -= 1;
                    let forwarder = TestNode::StringForwarder.signature().node;
                    Self::pipe_to(
                        TypedData::new(Value::Str(s), string_ty()),
                        forwarder.key,
                        forwarder.name,
                    )
                }
            }
            (TestNode::UnitToStringEarlyReturnString, Value::Unit) => {
                Self::return_from_pipeline(TypedData::new(Value::Str(String::new()), string_ty()))
            }
            (TestNode::StringToUnitEarlyReturnUnit, Value::Str(_)) => {
                Self::return_from_pipeline(TypedData::new(Value::Unit, unit_ty()))
            }
            (TestNode::StringToIsOk, Value::Str(s)) => {
                Self::advance(TypedData::new(Value::IsOk(s), is_ok_ty()))
            }
            (TestNode::IsOkToString, Value::IsOk(s)) => {
                Self::advance(TypedData::new(Value::Str(s), string_ty()))
            }
            (TestNode::Failing, _) => return Err(NodeError),
            _ => return Ok(InternalNodeOutput::WrongInputType),
        };
        Ok(InternalNodeOutput::NodeOutput(out))
    }
}

/// Converts data into the type `to`, as `Into` does between the test types.
fn convert(value: Value, to: TypeInfo) -> Value {
    match (value, to.key) {
        (Value::Str(s), TypeKey(2)) => Value::IsOk(s),
        (Value::IsOk(s), TypeKey(1)) => Value::Str(s),
        (v, _) => v,
    }
}

#[derive(Debug, PartialEq)]
enum MyPipelineError {
    WrongPipelineOutput {
        node_type_name: &'static str,
        expected_type_name: &'static str,
        got_type_name: &'static str,
    },
    NodeNotFound(&'static str),
    SomeNodeError,
}

/// Runs `pipeline` on `input` by performing the steps it decides.
fn run_pipeline(
    pipeline: &GenericPipeline<TestNode>,
    input: Value,
) -> Result<PipelineOutput<Value>, MyPipelineError> {
    let mut storage = PipelineStorage::new();
    let mut run = PipelineRun::new(pipeline.len());
    let mut step = pipeline.start::<Value, NodeError>(input);
    loop {
        match step {
            PipelineStep::RunNode { index, input, piped } => {
                let slot = pipeline.node(index);
                let event = match slot.get_input(input, piped) {
                    None => Ok(InternalNodeOutput::WrongInputType),
                    Some(v) => {
                        let mut node = run.take_node(pipeline, index);
                        let event = node.run(convert(v, slot.signature.input), &mut storage);
                        run.put_back(index, node);
                        event
                    }
                };
                if let Ok(InternalNodeOutput::WrongInputType) = event {
                    unreachable!("a node got data of a type it does not take");
                }
                step = pipeline.next_step(index, event);
            }
            PipelineStep::SoftFail => return Ok(PipelineOutput::SoftFail),
            PipelineStep::Finished(data) => {
                return Ok(PipelineOutput::Done(convert(data.value, pipeline.output_type())))
            }
            PipelineStep::ReturnedEarly(data) => return Ok(PipelineOutput::Done(data.value)),
            PipelineStep::NodeFailed(_) => return Err(MyPipelineError::SomeNodeError),
            PipelineStep::Failed(PipelineError::NodeWithTypeNotFound { node_type_name }) => {
                return Err(MyPipelineError::NodeNotFound(node_type_name))
            }
            PipelineStep::Failed(PipelineError::WrongOutputTypeForPipeline {
                node_type_name,
                expected_type_name,
                got_type_name,
                ..
            }) => {
                return Err(MyPipelineError::WrongPipelineOutput {
                    node_type_name,
                    expected_type_name,
                    got_type_name,
                })
            }
        }
    }
}

fn pipeline_of(input: TypeInfo, output: TypeInfo, nodes: Vec<TestNode>) -> GenericPipeline<TestNode> {
    let mut builder = GenericPipeline::builder(input);
    for node in nodes {
        let signature = node.signature();
        builder = builder.add_node(node, signature);
    }
    builder.finish(output)
}

fn matching_pipeline(pattern: &'static str) -> GenericPipeline<TestNode> {
    pipeline_of(
        string_ty(),
        string_ty(),
        vec![
            TestNode::StringMatcher(pattern),
            TestNode::StringForwarder,
            TestNode::RepeatPipeToStringForwarder { times: 3 },
        ],
    )
}

#[test]
fn generics_pipeline_success() {
    let pipeline = matching_pipeline("match");
    let res = run_pipeline(&pipeline, Value::Str("match".into()));
    assert_eq!(res, Ok(PipelineOutput::Done(Value::Str("match".to_owned()))));
}

#[test]
fn pipeline_io_conversion_success() {
    let pipeline = pipeline_of(
        string_ty(),
        string_ty(),
        vec![
            TestNode::StringToIsOk,
            TestNode::StringForwarder,
            TestNode::IsOkToString,
            TestNode::RepeatPipeToStringForwarder { times: 3 },
        ],
    );
    let res = run_pipeline(&pipeline, Value::Str("match".into()));
    assert_eq!(res, Ok(PipelineOutput::Done(Value::Str("match".to_owned()))));
}

#[test]
fn generics_soft_fail() {
    let pipeline = matching_pipeline("nomatch");
    let res = run_pipeline(&pipeline, Value::Str("".into()));
    assert_eq!(res, Ok(PipelineOutput::SoftFail));
}

#[test]
fn generics_node_not_found() {
    let pipeline = pipeline_of(
        string_ty(),
        string_ty(),
        vec![TestNode::StringMatcher(""), TestNode::RepeatPipeToStringForwarder { times: 3 }],
    );
    let res = run_pipeline(&pipeline, Value::Str("match".into()));
    assert_eq!(res, Err(MyPipelineError::NodeNotFound("generics::StringForwarder")));
}

#[test]
fn generics_wrong_output() {
    let pipeline = pipeline_of(
        unit_ty(),
        unit_ty(),
        vec![TestNode::UnitToStringEarlyReturnString, TestNode::StringToUnitEarlyReturnUnit],
    );
    let res = run_pipeline(&pipeline, Value::Unit);
    assert_eq!(
        res,
        Err(MyPipelineError::WrongPipelineOutput {
            expected_type_name: "()",
            got_type_name: "alloc::string::String",
            node_type_name: "generics::UnitToStringEarlyReturnString",
        })
    );
}

#[test]
fn pipeline_node_error_is_returned() {
    let pipeline = pipeline_of(
        string_ty(),
        string_ty(),
        vec![TestNode::StringForwarder, TestNode::Failing, TestNode::StringForwarder],
    );
    let res = run_pipeline(&pipeline, Value::Str("x".into()));
    assert_eq!(res, Err(MyPipelineError::SomeNodeError));
}

#[test]
fn pipeline_finishes_after_last_node_with_its_output() {
    let pipeline = pipeline_of(string_ty(), is_ok_ty(), vec![TestNode::StringToIsOk]);
    let res = run_pipeline(&pipeline, Value::Str("x".into()));
    assert_eq!(res, Ok(PipelineOutput::Done(Value::IsOk("x".into()))));
}

#[test]
fn pipeline_pipes_to_first_node_of_the_type() {
    let pipeline = pipeline_of(
        string_ty(),
        string_ty(),
        vec![
            TestNode::StringMatcher("a"),
            TestNode::StringForwarder,
            TestNode::StringForwarder,
            TestNode::RepeatPipeToStringForwarder { times: 1 },
        ],
    );
    let forwarder = TestNode::StringForwarder.signature().node;
    assert_eq!(pipeline.get_node_index(forwarder.key), Some(1));
    assert_eq!(pipeline.get_node_index(TypeKey(99)), None);
    let res = run_pipeline(&pipeline, Value::Str("abc".into()));
    assert_eq!(res, Ok(PipelineOutput::Done(Value::Str("abc".into()))));
}

#[test]
fn pipeline_steps_advance_and_pipe() {
    let pipeline = matching_pipeline("m");
    match pipeline.start::<Value, NodeError>(Value::Str("m".into())) {
        PipelineStep::RunNode { index, input, piped } => {
            assert_eq!(index, 0);
            assert!(!piped);
            assert_eq!(input.value, Value::Str("m".into()));
            assert_eq!(input.ty.key, string_ty().key);
        }
        other => panic!("unexpected step {other:?}"),
    }
    let advanced = pipeline.next_step::<Value, NodeError>(
        0,
        Ok(InternalNodeOutput::NodeOutput(TestNode::advance(TypedData::new(
            Value::Str("m".into()),
            string_ty(),
        )))),
    );
    assert!(matches!(advanced, PipelineStep::RunNode { index: 1, piped: false, .. }));
    let forwarder = TestNode::StringForwarder.signature().node;
    let piped = pipeline.next_step::<Value, NodeError>(
        2,
        Ok(InternalNodeOutput::NodeOutput(TestNode::pipe_to(
            TypedData::new(Value::Str("m".into()), string_ty()),
            forwarder.key,
            forwarder.name,
        ))),
    );
    assert!(matches!(piped, PipelineStep::RunNode { index: 1, piped: true, .. }));
    let finished = pipeline.next_step::<Value, NodeError>(
        2,
        Ok(InternalNodeOutput::NodeOutput(TestNode::advance(TypedData::new(
            Value::Str("m".into()),
            string_ty(),
        )))),
    );
    assert!(matches!(finished, PipelineStep::Finished(_)));
    let soft = pipeline.next_step::<Value, NodeError>(0, Ok(InternalNodeOutput::NodeOutput(TestNode::soft_fail())));
    assert!(matches!(soft, PipelineStep::SoftFail));
}

#[test]
fn node_accepts_only_the_type_it_expects() {
    let pipeline = pipeline_of(
        string_ty(),
        string_ty(),
        vec![TestNode::StringToIsOk, TestNode::IsOkToString],
    );
    let second = pipeline.node(1);
    assert_eq!(second.previous_output.key, is_ok_ty().key);
    assert_eq!(
        second.get_input(TypedData::new(Value::IsOk("a".into()), is_ok_ty()), false),
        Some(Value::IsOk("a".into()))
    );
    assert_eq!(second.get_input(TypedData::new(Value::Str("a".into()), string_ty()), false), None);
    assert_eq!(second.get_input(TypedData::new(Value::Str("a".into()), string_ty()), true), None);
    let first = pipeline.node(0);
    assert_eq!(first.previous_output.key, string_ty().key);
}

type Outcome = Result<InternalPipelineOutput<Value>, MyPipelineError>;

fn outcome_of(result: Result<PipelineOutput<Value>, MyPipelineError>) -> Outcome {
    match result {
        Ok(PipelineOutput::SoftFail) => Ok(InternalPipelineOutput::SoftFail),
        Ok(PipelineOutput::Done(v)) => Ok(InternalPipelineOutput::Done(v)),
        Err(e) => Err(e),
    }
}

/// Runs `orchestrator` on `input` by performing the steps it decides; also counts the pipelines run.
fn run_orchestrator(
    orchestrator: &GenericOrchestrator<GenericPipeline<TestNode>>,
    input: Value,
) -> (Result<Value, ErrorInner<MyPipelineError>>, usize) {
    let mut ran: usize = 0;
    let mut step = orchestrator.start();
    loop {
        match step {
            OrchestratorStep::RunPipeline(index) => {
                ran += 1;
                let outcome = outcome_of(run_pipeline(orchestrator.pipeline(index), input.clone()));
                step = orchestrator.next_step(index, outcome);
            }
            OrchestratorStep::Finished(result) => return (result, ran),
        }
    }
}

#[test]
fn generics_orchestrator_success() {
    let mut orchestrator = GenericOrchestrator::new();
    orchestrator.add_pipeline(matching_pipeline("match"));
    let (res, _) = run_orchestrator(&orchestrator, Value::Str("match".into()));
    assert_eq!(res, Ok(Value::Str("match".to_owned())));
}

#[test]
fn orchestrator_io_conversion_success() {
    let mut orchestrator = GenericOrchestrator::new();
    orchestrator.add_pipeline(pipeline_of(
        string_ty(),
        is_ok_ty(),
        vec![TestNode::StringMatcher("match"), TestNode::StringToIsOk],
    ));
    let (res, _) = run_orchestrator(&orchestrator, Value::Str("match".into()));
    assert_eq!(res, Ok(Value::IsOk("match".to_owned())));
}

#[test]
fn generics_orchestrator_no_pipeline() {
    let mut orchestrator = GenericOrchestrator::new();
    orchestrator.add_pipeline(matching_pipeline("nomatch"));
    let (res, _) = run_orchestrator(&orchestrator, Value::Str("".into()));
    assert_eq!(res, Err(ErrorInner::AllPipelinesSoftFailed));
}

#[test]
fn orchestrator_without_pipelines_fails() {
    let orchestrator: GenericOrchestrator<GenericPipeline<TestNode>> = GenericOrchestrator::new();
    let (res, ran) = run_orchestrator(&orchestrator, Value::Str("".into()));
    assert_eq!(res, Err(ErrorInner::AllPipelinesSoftFailed));
    assert_eq!(ran, 0);
}

#[test]
fn orchestrator_first_pipeline_not_soft_failing_decides() {
    let mut orchestrator = GenericOrchestrator::new();
    for _ in 0..5 {
        orchestrator.add_pipeline(matching_pipeline("nomatch"));
    }
    orchestrator.add_pipeline(matching_pipeline("Nice"));
    orchestrator.add_pipeline(pipeline_of(string_ty(), string_ty(), vec![TestNode::Failing]));
    assert_eq!(orchestrator.len(), 7);
    let (res, ran) = run_orchestrator(&orchestrator, Value::Str("Nice".into()));
    assert_eq!(res, Ok(Value::Str("Nice".into())));
    assert_eq!(ran, 6);
}

#[test]
fn orchestrator_pipeline_error_stops_the_run() {
    let mut orchestrator = GenericOrchestrator::new();
    orchestrator.add_pipeline(matching_pipeline("nomatch"));
    orchestrator.add_pipeline(matching_pipeline("nomatch"));
    orchestrator.add_pipeline(pipeline_of(string_ty(), string_ty(), vec![TestNode::Failing]));
    orchestrator.add_pipeline(matching_pipeline("Nice"));
    let (res, ran) = run_orchestrator(&orchestrator, Value::Str("Nice".into()));
    assert_eq!(res, Err(ErrorInner::Other(MyPipelineError::SomeNodeError)));
    assert_eq!(ran, 3);
}

#[test]
fn orchestrator_all_pipelines_soft_fail() {
    let mut orchestrator = GenericOrchestrator::new();
    for _ in 0..3 {
        orchestrator.add_pipeline(matching_pipeline("nomatch"));
    }
    let (res, ran) = run_orchestrator(&orchestrator, Value::Str("Nice".into()));
    assert_eq!(res, Err(ErrorInner::AllPipelinesSoftFailed));
    assert_eq!(ran, 3);
}

#[test]
fn keyed_orchestrator_runs_the_bucket_of_the_key() {
    let mut orchestrator: KeyedGenericOrchestrator<GenericPipeline<TestNode>, fn(&Value) -> u64> =
        KeyedGenericOrchestrator::new(|v: &Value| match v {
            Value::Str(s) => s.len() as u64,
            _ => 0,
        });
    orchestrator.add_pipeline(4, matching_pipeline("nomatch"));
    orchestrator.add_pipeline(4, matching_pipeline("Ni"));
    orchestrator.add_pipeline(5, matching_pipeline("nomatch"));
    assert_eq!(orchestrator.bucket_len(4), 2);
    assert_eq!(orchestrator.bucket_len(5), 1);
    assert_eq!(orchestrator.bucket_len(6), 0);

    let run = |input: Value| {
        let key = (orchestrator.key_extractor())(&input);
        let mut step = orchestrator.start::<Value, MyPipelineError>(key);
        loop {
            match step {
                OrchestratorStep::RunPipeline(index) => {
                    let outcome = outcome_of(run_pipeline(orchestrator.pipeline(key, index), input.clone()));
                    step = orchestrator.next_step(key, index, outcome);
                }
                OrchestratorStep::Finished(result) => return result,
            }
        }
    };
    assert_eq!(run(Value::Str("Nice".into())), Ok(Value::Str("Nice".into())));
    assert_eq!(run(Value::Str("Nice!".into())), Err(ErrorInner::AllPipelinesSoftFailed));
    assert_eq!(run(Value::Str("Nice!!".into())), Err(ErrorInner::AllPipelinesSoftFailed));
}

#[test]
fn pipeline_storage_test() {
    let pipeline = pipeline_of(
        unit_ty(),
        usize_ty(),
        vec![
            TestNode::StoreZero,
            TestNode::IncrementStored,
            TestNode::IncrementStored,
            TestNode::TakeStored,
        ],
    );
    let res = run_pipeline(&pipeline, Value::Unit);
    assert_eq!(res, Ok(PipelineOutput::Done(Value::Count(2))));
}

#[test]
fn each_run_starts_from_fresh_node_copies() {
    let pipeline = pipeline_of(
        string_ty(),
        string_ty(),
        vec![TestNode::StringForwarder, TestNode::RepeatPipeToStringForwarder { times: 2 }],
    );
    // the repeating node counts down within a run, and starts over in the next run
    for _ in 0..2 {
        let res = run_pipeline(&pipeline, Value::Str("x".into()));
        assert_eq!(res, Ok(PipelineOutput::Done(Value::Str("x".into()))));
    }
    let mut run = PipelineRun::new(pipeline.len());
    let first = run.take_node(&pipeline, 1);
    assert!(matches!(first, TestNode::RepeatPipeToStringForwarder { times: 2 }));
    run.put_back(1, TestNode::RepeatPipeToStringForwarder { times: 0 });
    let again = run.take_node(&pipeline, 1);
    assert!(matches!(again, TestNode::RepeatPipeToStringForwarder { times: 0 }));
}

#[test]
fn pipeline_error_messages() {
    let not_found: PipelineError<()> =
        PipelineError::NodeWithTypeNotFound { node_type_name: "generics::StringForwarder" };
    assert_eq!(
        not_found.message(),
        "node with type 'generics::StringForwarder' wasn't found in pipeline"
    );
    let wrong: PipelineError<()> = PipelineError::WrongOutputTypeForPipeline {
        node_type_name: "N",
        data: (),
        expected_type_name: "()",
        got_type_name: "alloc::string::String",
    };
    assert_eq!(
        wrong.message(),
        "node with type 'N' returned wrong output type for pipeline, expected: '()', got: 'alloc::string::String'"
    );
    assert_eq!(
        orchestrator::generic::orchestrator::OrchestratorError::AllPipelinesSoftFailed.message(),
        "all pipelines in orchestrator failed"
    );
}
