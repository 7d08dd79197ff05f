//! Drawing player identities.

use crate::lobby::PlayerId;
use uuid::Uuid;
use vstd::prelude::*;

verus! {

/// The bits that say "version 4, RFC variant" are set as the standard has
/// them; the other 122 bits are free.
pub open spec fn is_random_uuid(id: PlayerId) -> bool {
    id & 0x0000_0000_0000_f000_c000_0000_0000_0000u128
        == 0x0000_0000_0000_4000_8000_0000_0000_0000u128
}

/// Calls `Uuid::new_v4` and reads the result with `Uuid::as_u128`.
/// Trusted: whatever the random source gave, the value carries the
/// version and variant bits of a random UUID. Nothing is claimed about
/// the other bits, and two calls may or may not differ.
#[verifier::external_body]
pub(crate) fn random_player_id() -> (id: PlayerId)
    ensures
        is_random_uuid(id),
{
    Uuid::new_v4().as_u128()
}

} // verus!
