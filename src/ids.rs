//! Fresh session identifiers.

use vstd::prelude::*;

verus! {

/// The shape of every identifier that `new_session_id` gives: a random UUID,
/// version 4, RFC 4122 variant.
pub open spec fn is_v4_id(id: u128) -> bool {
    &&& (id >> 76u128) & 15u128 == 4u128
    &&& (id >> 62u128) & 3u128 == 2u128
}

/// Relies on uuid::Uuid::new_v4 and Uuid::as_u128: a random identifier whose
/// version nibble is 4 and whose variant bits are `10`.
#[verifier::external_body]
pub(crate) fn new_session_id() -> (r: u128)
    ensures
        (r >> 76u128) & 15u128 == 4u128,
        (r >> 62u128) & 3u128 == 2u128,
{
    uuid::Uuid::new_v4().as_u128()
}

} // verus!
