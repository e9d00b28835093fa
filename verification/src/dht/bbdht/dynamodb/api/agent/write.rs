//! Recording that an agent is in a space.
use crate::agent::AgentAddress;
use crate::dht::bbdht::dynamodb::api::item::{keyed_as, keyed_item, ItemKey};
use crate::dht::bbdht::dynamodb::schema::cas::PARTITION_KEY;
use crate::dht::bbdht::dynamodb::request::PutItemInput;
use crate::space::Space;
use vstd::prelude::*;

verus! {

/// The request that records the agent in the space: an item that holds only
/// the key of the agent's address (`write_until_done` with `Write::Agent` sends
/// it until it is done).
pub fn touch_agent(space: &Space, agent_address: &AgentAddress) -> (r: PutItemInput)
    ensures
        r.table_name@ == space@.table_name,
        r.item@.dom() == set![PARTITION_KEY@],
        keyed_as(r.item@, space@, agent_address@),
{
    PutItemInput {
        table_name: space.connection().table_name().as_string().clone(),
        item: keyed_item(space, &ItemKey(agent_address.0.clone())),
    }
}

} // verus!
