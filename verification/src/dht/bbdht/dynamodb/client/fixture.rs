//! Fresh connections for exercising the store.
use crate::dht::bbdht::dynamodb::api::table::fixture::table_name_fresh;
use crate::dht::bbdht::dynamodb::client::connection::Connection;
use crate::fresh::is_v4_uuid_text;
use vstd::prelude::*;

verus! {

/// A connection to a fresh table.
pub fn local_connection_fresh() -> (r: Connection)
    ensures
        r@.len() == 42,
        r@.subrange(0, 6) == "table_"@,
        is_v4_uuid_text(r@.subrange(6, 42)),
{
    Connection::new(&table_name_fresh())
}

} // verus!
