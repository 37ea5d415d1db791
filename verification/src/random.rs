use vstd::prelude::*;

verus! {

/// Draws a random `i32` with `rand::random`.
///
/// Trusted: nothing is claimed of the value, which comes from the thread-local
/// generator.
#[verifier::external_body]
pub(crate) fn random_i32() -> i32 {
    rand::random::<i32>()
}

/// Draws a random `u128` with `rand::random`.
///
/// Trusted: nothing is claimed of the value, which comes from the thread-local
/// generator.
#[verifier::external_body]
pub(crate) fn random_u128() -> u128 {
    rand::random::<u128>()
}

/// Whether a 128-bit id, read as a UUID in big-endian order, is a random
/// (version-4, RFC 4122 variant) UUID: its version nibble is 4 and its
/// variant bits are `10`.
pub open spec fn is_uuid_v4(u: u128) -> bool {
    (u >> 76u128) & 0xfu128 == 4u128 && (u >> 62u128) & 0x3u128 == 2u128
}

/// Makes a version-4 UUID of 128 random bits: sets the version nibble to 4
/// and the variant bits to `10`, and keeps the other 122 bits.
pub fn uuid_v4_from_bits(bits: u128) -> (u: u128)
    ensures
        is_uuid_v4(u),
        u & !((0xfu128 << 76u128) | (0x3u128 << 62u128)) == bits & !((0xfu128 << 76u128) | (0x3u128 << 62u128)),
{
    let mask: u128 = (0xfu128 << 76u128) | (0x3u128 << 62u128);
    let u = (bits & !mask) | (0x4u128 << 76u128) | (0x2u128 << 62u128);
    assert((((bits & !mask) | (0x4u128 << 76u128) | (0x2u128 << 62u128)) >> 76u128) & 0xfu128 == 4u128
        && (((bits & !mask) | (0x4u128 << 76u128) | (0x2u128 << 62u128)) >> 62u128) & 0x3u128 == 2u128
        && ((bits & !mask) | (0x4u128 << 76u128) | (0x2u128 << 62u128)) & !mask == bits & !mask) by (bit_vector)
        requires mask == (0xfu128 << 76u128) | (0x3u128 << 62u128);
    u
}

} // verus!
