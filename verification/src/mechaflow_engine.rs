//! The workflow engine: identifiers and errors, state machines, triggers,
//! conditions, actions, rules, workflow contexts, workflows and scheduling.
pub mod error;
pub mod state_machine;
pub mod trigger;
pub mod condition;
pub mod action;
pub mod context;
pub mod workflow;
pub mod scheduler;
pub mod rules;
pub mod types;

use vstd::prelude::*;

verus! {

/// The version of the workflow engine.
pub const VERSION: &'static str = "0.1.0";

} // verus!
