//! Fresh spaces for exercising the store.
use crate::fresh::{is_v4_uuid_text, uuid_v4_text};
use crate::dht::bbdht::dynamodb::client::fixture::local_connection_fresh;
use crate::network::fixture::network_id_fresh;
use crate::space::{Space, SpaceHash};
use vstd::prelude::*;

verus! {

/// A fresh random space hash.
pub fn space_hash_fresh() -> (r: SpaceHash)
    ensures
        is_v4_uuid_text(r@),
{
    uuid_v4_text()
}

/// A fresh space: a fresh table, network id and space hash.
pub fn space_fresh() -> (r: Space)
    ensures
        r@.table_name.subrange(0, 6) == "table_"@,
        r@.table_name.len() == 42,
        is_v4_uuid_text(r@.network_id),
        is_v4_uuid_text(r@.space_hash),
{
    Space::new(&local_connection_fresh(), &network_id_fresh(), &space_hash_fresh())
}

} // verus!
