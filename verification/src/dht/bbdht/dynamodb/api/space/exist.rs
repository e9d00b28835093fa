//! Whether a space's table exists.
use crate::dht::bbdht::dynamodb::api::table::exist::table_exists;
use crate::dht::bbdht::dynamodb::request::DescribeTableInput;
use crate::space::Space;
use vstd::prelude::*;

verus! {

/// The request that asks whether the table of `space` exists (its reply reads
/// with `table_exists_reply`).
pub fn space_exists(space: &Space) -> (r: DescribeTableInput)
    ensures
        r.table_name@ == space@.table_name,
{
    table_exists(space.connection().table_name())
}

} // verus!
