use vstd::prelude::*;

verus! {

/// rand's standard generator, carried through the rules as an opaque value.
#[verifier::external_type_specification]
#[verifier::external_body]
pub struct ExStdRng(rand::rngs::StdRng);

/// Relies on rand's `RngCore::next_u64` for `StdRng`: it advances the
/// generator and returns a 64-bit value, about which nothing is promised.
#[verifier::external_body]
pub(crate) fn next_draw(rng: &mut rand::rngs::StdRng) -> (r: u64) {
    rand::RngCore::next_u64(rng)
}

/// A random byte: the low byte of one draw.
pub(crate) fn next_byte(rng: &mut rand::rngs::StdRng) -> (r: u8) {
    let d = next_draw(rng);
    (d % 256) as u8
}

} // verus!
