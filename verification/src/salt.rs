//! A salt drawn from a random number generator.

use rand::rngs::SmallRng;
use rand::RngCore;
use vstd::prelude::*;

verus! {

/// `rand::rngs::SmallRng`, carried through as an opaque value.
#[verifier::external_type_specification]
#[verifier::external_body]
pub struct ExSmallRng(SmallRng);

/// `RngCore::next_u32` on a `SmallRng` returns the next 32 bits of its
/// stream. Any value may come out, so nothing is claimed of it.
#[verifier::external_body]
pub(crate) fn next_u32(rng: &mut SmallRng) -> u32 {
    rng.next_u32()
}

} // verus!
