//! Connection identities: random version-4 UUIDs, held as the 128-bit
//! number that their sixteen bytes spell in big-endian order.

use vstd::prelude::*;

verus! {

/// The version and variant bits of a UUID.
pub const LAYOUT_MASK: u128 = 0x0000_0000_0000_f000_c000_0000_0000_0000u128;

/// The value those bits have in a version-4 UUID of the RFC 9562 variant.
pub const RANDOM_LAYOUT: u128 = 0x0000_0000_0000_4000_8000_0000_0000_0000u128;

/// An identity has the layout of a random UUID.
pub open spec fn is_random_layout(id: u128) -> bool {
    id & LAYOUT_MASK == RANDOM_LAYOUT
}

/// `uuid::Uuid::new_v4`, read through `Uuid::as_u128`: a UUID whose version
/// and variant bits are those of a random UUID and whose other 122 bits come
/// from the operating system's random number generator. Only the fixed bits
/// are claimed; the call panics if the generator cannot be read.
#[verifier::external_body]
pub(crate) fn fresh_id() -> (id: u128)
    ensures
        is_random_layout(id),
{
    uuid::Uuid::new_v4().as_u128()
}

} // verus!
