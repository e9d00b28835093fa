//! Fresh aspect values for exercising the store.
use crate::fresh::{is_v4_uuid_text, uuid_v4_text};
use vstd::prelude::*;

verus! {

/// A fresh random aspect address.
pub fn aspect_address_fresh() -> (r: String)
    ensures
        is_v4_uuid_text(r@),
{
    uuid_v4_text()
}

/// The type hint of a sample aspect.
pub fn type_hint_fresh() -> (r: String)
    ensures
        r@ == "content"@,
{
    String::from_str("content")
}

/// The publication time of a sample aspect.
pub fn publish_ts_fresh() -> (r: u64)
    ensures
        r == 1568858140,
{
    1568858140
}

} // verus!
