//! Policy gate for an agent's mutating actions.
//!
//! The library decides, for each requested tool action, whether the action
//! may proceed. The decision folds together a collaboration-phase state
//! machine, a fail-closed tool classifier, a parser that pulls a structured
//! phase judgment out of free-form model output, and a task-tracker signal.

use vstd::prelude::*;

pub mod bd;
pub mod claude;
pub mod config;
pub mod decision;
pub mod json;
pub mod numeral;
pub mod oh;
pub mod state;
pub mod text;
pub mod tools;

verus! {

} // verus!
