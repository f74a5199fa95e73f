//! Draws from a seeded PCG generator.

use vstd::prelude::*;
use rand::Rng;
use rand_pcg::Pcg64;

verus! {

/// The 64-bit PCG generator of `rand_pcg`. Nothing is known of its state.
#[verifier::external_type_specification]
#[verifier::external_body]
pub struct ExPcg64(rand_pcg::Pcg64);

/// Draws an integer from `low..high` with `rand::Rng::gen_range`.
///
/// Trusted: `gen_range` returns a value of the half-open range it is given, and panics
/// if that range is empty, which `requires` rules out.
#[verifier::external_body]
pub(crate) fn draw_in_range(generator: &mut Pcg64, low: u32, high: u32) -> (value: u32)
    requires
        low < high,
    ensures
        low <= value < high,
{
    generator.gen_range(low..high)
}

/// Draws 32 random bits with `rand::Rng::gen`.
///
/// Trusted: the call returns; any `u32` may come back.
#[verifier::external_body]
pub(crate) fn draw_word(generator: &mut Pcg64) -> (word: u32) {
    generator.gen::<u32>()
}

} // verus!
