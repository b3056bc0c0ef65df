//! A conditional task-execution engine.
//!
//! A task names an operation on a target, its arguments, and optionally a
//! resolver that is asked before each run whether the run is due. An attempt
//! to run a task loads its record, consults the resolver, calls the target,
//! and records the run only once the target has returned.
//!
//! The engine decides; it never calls out itself. [`attempt::Attempt`] is
//! the state machine of one attempt: it hands out the next action and takes
//! the event that answers it. [`contract::SoroTaskContract`] holds the entry
//! points on a [`store::TaskStore`], with an [`environment::Environment`]
//! answering for the surroundings. [`laws`] states what holds of them.

pub mod attempt;
pub mod call;
pub mod contract;
pub mod environment;
pub mod gate;
pub mod invoker;
pub mod laws;
pub mod store;
pub mod task;
pub mod value;
