//! The command channel: commands fetched from the collector are dispatched
//! to the response actions.

pub mod actions;
pub mod responder;

use vstd::prelude::*;

verus! {

/// A command from the collector: which action to run, and against what.
#[derive(Debug, Clone, PartialEq, Eq)]
pub struct Command {
    pub id: String,
    pub action: String,
    pub target: String,
}

} // verus!
