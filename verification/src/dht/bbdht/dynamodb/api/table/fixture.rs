//! Fresh table names for exercising the store.
use crate::dht::bbdht::dynamodb::schema::TableName;
use crate::fresh::{is_v4_uuid_text, prefixed_fresh};
use vstd::prelude::*;

verus! {

/// A fresh random table name: `table_` and a UUID.
pub fn table_name_fresh() -> (r: TableName)
    ensures
        r@.len() == 42,
        r@.subrange(0, 6) == "table_"@,
        is_v4_uuid_text(r@.subrange(6, 42)),
{
    proof {
        reveal_strlit("table_");
    }
    TableName(prefixed_fresh("table_"))
}

} // verus!
