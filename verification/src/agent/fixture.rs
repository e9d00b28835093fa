//! Fresh agents and messages for exercising the store.
use crate::agent::AgentAddress;
use crate::fresh::{is_v4_uuid_text, uuid_v4_text};
use vstd::prelude::*;

verus! {

/// A fresh random agent address.
pub fn agent_address_fresh() -> (r: AgentAddress)
    ensures
        is_v4_uuid_text(r@),
{
    AgentAddress(uuid_v4_text())
}

/// A fresh random nick name.
pub fn core_nick_fresh() -> (r: String)
    ensures
        is_v4_uuid_text(r@),
{
    uuid_v4_text()
}

/// The bytes of a sample message: the JSON text of the string `foo`, quotes included.
pub fn message_content_fresh() -> (r: Vec<u8>)
    ensures
        r@ == seq![34u8, 102u8, 111u8, 111u8, 34u8],
{
    vec![34u8, 102u8, 111u8, 111u8, 34u8]
}

} // verus!
