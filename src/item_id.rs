use vstd::prelude::*;

verus! {

/// The identifier of a todo item: the 128 bits of a UUID.
#[derive(Clone, Copy, Debug, PartialEq, Eq, Structural, Hash)]
pub struct ItemId {
    pub bits: u128,
}

/// The bits that a version 4 UUID fixes: its version nibble and its variant.
pub const V4_FIXED_MASK: u128 = 0xF000_C000_0000_0000_0000;

/// Their values in a version 4 UUID: version 4, RFC 4122 variant.
pub const V4_FIXED_BITS: u128 = 0x4000_8000_0000_0000_0000;

impl ItemId {
    /// Whether the identifier carries the version and variant of a random UUID.
    pub open spec fn is_random_v4(self) -> bool {
        self.bits & V4_FIXED_MASK == V4_FIXED_BITS
    }

    /// Draws a fresh identifier from the operating system's random source.
    pub fn random() -> (r: ItemId)
        ensures
            r.is_random_v4(),
    {
        random_uuid_bits()
    }
}

/// Relies on uuid::Uuid::new_v4: random bits, with the version nibble set to 4
/// and the variant to RFC 4122; the value is read out with Uuid::as_u128.
/// The call panics only where the operating system's random source fails,
/// which depends on the machine and on no argument.
#[verifier::external_body]
fn random_uuid_bits() -> (r: ItemId)
    ensures
        r.bits & V4_FIXED_MASK == V4_FIXED_BITS,
{
    ItemId { bits: uuid::Uuid::new_v4().as_u128() }
}

} // verus!
