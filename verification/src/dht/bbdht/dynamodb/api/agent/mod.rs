//! Agents in the store: their presence in a space and their inboxes.
pub mod inbox;
pub mod read;
pub mod write;

use vstd::prelude::*;

verus! {

/// The address of an agent, as the store keys it.
#[derive(Debug, PartialEq, Eq, Clone)]
pub struct AgentAddress(pub String);

} // verus!
