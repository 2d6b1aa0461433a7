//! Pipelines of nodes and orchestrators of pipelines.
//!
//! A pipeline runs its nodes one after another; each node either advances to the
//! next node, pipes its output to a node of a given type, returns from the pipeline
//! early or soft fails it. An orchestrator runs its pipelines in the order they were
//! added and answers with the first one that does not soft fail.
//!
//! This crate holds the decisions that drive those runs, as step functions from a
//! state and an event to the next action, together with the data structures they
//! work on. Running a node or a pipeline is asynchronous work and is left to the
//! caller, which performs each action and hands the outcome back.
use vstd::prelude::*;

pub mod generic;
pub mod type_key;
