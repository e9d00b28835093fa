//! Fresh entry addresses for exercising the store.
use crate::fresh::{is_v4_uuid_text, uuid_v4_text};
use vstd::prelude::*;

verus! {

/// A fresh random entry address.
pub fn entry_address_fresh() -> (r: String)
    ensures
        is_v4_uuid_text(r@),
{
    uuid_v4_text()
}

/// A fresh random header address.
pub fn header_address_fresh() -> (r: String)
    ensures
        is_v4_uuid_text(r@),
{
    uuid_v4_text()
}

} // verus!
