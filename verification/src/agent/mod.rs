//! Agents: the participants of a space, named by their address.
pub mod fixture;

use vstd::prelude::*;
use vstd::std_specs::convert::FromSpecImpl;

verus! {

/// The address of an agent.
#[derive(Debug, PartialEq, Eq, Clone, Default)]
pub struct AgentAddress(pub String);

impl View for AgentAddress {
    type V = Seq<char>;

    open spec fn view(&self) -> Seq<char> {
        self.0@
    }
}

impl AgentAddress {
    /// The address as text.
    pub fn as_string(&self) -> (r: &String)
        ensures
            r@ == self@,
    {
        &self.0
    }

    /// A copy of this address.
    pub fn copy(&self) -> (r: AgentAddress)
        ensures
            r@ == self@,
    {
        AgentAddress(self.0.clone())
    }
}

impl From<AgentAddress> for String {
    fn from(agent_address: AgentAddress) -> (r: String) {
        agent_address.0
    }
}

impl FromSpecImpl<AgentAddress> for String {
    open spec fn obeys_from_spec() -> bool {
        true
    }

    open spec fn from_spec(agent_address: AgentAddress) -> String {
        agent_address.0
    }
}

impl From<String> for AgentAddress {
    fn from(string: String) -> (r: AgentAddress) {
        AgentAddress(string)
    }
}

impl FromSpecImpl<String> for AgentAddress {
    open spec fn obeys_from_spec() -> bool {
        true
    }

    open spec fn from_spec(string: String) -> AgentAddress {
        AgentAddress(string)
    }
}

impl<'a> From<&'a AgentAddress> for String {
    fn from(agent_address: &'a AgentAddress) -> (r: String) {
        agent_address.0.clone()
    }
}

impl<'a> FromSpecImpl<&'a AgentAddress> for String {
    open spec fn obeys_from_spec() -> bool {
        true
    }

    open spec fn from_spec(agent_address: &'a AgentAddress) -> String {
        agent_address.0
    }
}

} // verus!
