//! Reading items.
use crate::dht::bbdht::dynamodb::api::item::{keyed_as, keyed_item, ItemKey};
use crate::dht::bbdht::dynamodb::request::GetItemInput;
use crate::dht::bbdht::dynamodb::schema::cas::PARTITION_KEY;
use crate::space::Space;
use vstd::prelude::*;

verus! {

/// The request that reads the item of `item_key` in `space`: a consistent read
/// of the space's table, by the item's partition key alone.
pub fn get_item_from_space(space: &Space, item_key: &ItemKey) -> (r: GetItemInput)
    ensures
        r.table_name@ == space@.table_name,
        r.consistent_read == Some(true),
        r.key@.dom() == set![PARTITION_KEY@],
        keyed_as(r.key@, space@, item_key@),
{
    GetItemInput {
        consistent_read: Some(true),
        table_name: space.connection().table_name().as_string().clone(),
        key: keyed_item(space, item_key),
    }
}

} // verus!
