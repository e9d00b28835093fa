//! Making sure that a space's table exists.
use crate::dht::bbdht::dynamodb::api::table::create::{describes, ensure_cas_table, EnsureTable};
use crate::dht::bbdht::dynamodb::request::DbRequest;
use crate::dht::bbdht::dynamodb::schema::cas::{ITEM_KEY, PARTITION_KEY};
use crate::space::Space;
use vstd::prelude::*;

verus! {

/// Makes sure that the table of `space` exists (see `ensure_cas_table`).
pub fn ensure_space(space: &Space) -> (r: (EnsureTable, DbRequest))
    ensures
        r.0.table_name@ == space@.table_name,
        r.0.key_schema@.len() == 1,
        r.0.key_schema@[0]@ == (PARTITION_KEY@, "HASH"@),
        r.0.attribute_definitions@.len() == 1,
        r.0.attribute_definitions@[0]@ == (ITEM_KEY@, "S"@),
        r.0.phase is Checking,
        describes(r.1, space@.table_name),
{
    ensure_cas_table(space.connection().table_name())
}

} // verus!
