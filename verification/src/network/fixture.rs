//! Fresh network and request ids for exercising the store.
use crate::fresh::{is_v4_uuid_text, uuid_v4_text};
use crate::network::{NetworkId, RequestId};
use vstd::prelude::*;

verus! {

/// A fresh random network id.
pub fn network_id_fresh() -> (r: NetworkId)
    ensures
        is_v4_uuid_text(r@),
{
    NetworkId(uuid_v4_text())
}

/// A fresh random request id.
pub fn request_id_fresh() -> (r: RequestId)
    ensures
        is_v4_uuid_text(r@),
{
    RequestId(uuid_v4_text())
}

} // verus!
