# orchestrator

Pipelines of nodes and orchestrators of pipelines.

A pipeline runs its nodes one after another. After each node it advances to the
next node, pipes data to the first node of a given type, returns early, or soft
fails. An orchestrator runs its pipelines in the order they were added and answers
with the first one that does not soft fail.

## Layout

- `src/` is the verified library. It holds the decisions of a run as step
  functions from a state and an event to the next action (`GenericPipeline::start`
  and `next_step`, `GenericOrchestrator::start` and `next_step`, and the keyed
  orchestrator's), the choice of the storage a wrapped pipeline runs with
  (`GenericPipelineAsNode::storage_for_run`), the builder and its type chaining,
  the per-run node copies (`PipelineRun`), the pipeline storage, the error
  messages, the conversions between node, pipeline and orchestrator results, and
  the laws that tie them together: type safety of a pipeline run, that an
  orchestrator run is decided by the first pipeline that does not soft fail, and
  that a storage read gives back the last write. Types are identified by plain
  keys (`type_key::TypeKey`); the keyed orchestrator's buckets are keyed by
  integers.
- `app/` is the asynchronous runtime around it: the `Node`, `Pipeline` and
  `Orchestrator` traits with their async `run`, type-erased data (`dyn Any`), the
  registry that gives each Rust type its key, the interning of the keyed
  orchestrator's user keys (they depend on the user's `Hash` and `Eq`) into
  integers, the making of the empty storage a wrapped pipeline gets when it does
  not share, and the loops that perform each
  decided step and hand its outcome back to the library.
- `tests/` drives the step functions on concrete pipelines and orchestrators.
