use vstd::prelude::*;

verus! {

/// The stable key of a song, an album or an artist: an opaque 128-bit value.
pub type Id = u128;

/// Whether `id` has the form of a randomly drawn identifier: its version
/// field, bits 76 to 79, holds 4, and its variant field, bits 62 and 63, holds
/// binary 10.
pub open spec fn is_random_id(id: Id) -> bool {
    (id >> 76) & 0xf == 4 && (id >> 62) & 0x3 == 2
}

/// A newly drawn random identifier.
///
/// Calls `uuid::Uuid::new_v4` and hands the value out as the integer that
/// `Uuid::as_u128` gives. The contract claims only what holds of every
/// identifier drawn so: the version field is 4 and the variant field is
/// binary 10. Which value is drawn is left open.
#[verifier::external_body]
pub(crate) fn fresh_id() -> (id: Id)
    ensures
        is_random_id(id),
{
    uuid::Uuid::new_v4().as_u128()
}

} // verus!
