//! The decision logic of a pipeline of language-model agents.
//!
//! - `agent`: the agent record and its states.
//! - `fact_sheet`: the project record that agents fill in.
//! - `protocol`: prompts, conversations and the retrying decode of replies.
//! - `validator`: pruning of external URLs after liveness probes.
//! - `architect`: the solution architect's state machine.
//! - `command`: how progress lines and prompts are presented.
//!
//! Network calls, the terminal and the loops that wait on them stay with the
//! caller, which performs each action the library returns and hands back
//! what came of it.
use vstd::prelude::*;

pub mod agent;
pub mod architect;
pub mod command;
pub mod fact_sheet;
pub mod protocol;
pub mod validator;

verus! {

} // verus!
