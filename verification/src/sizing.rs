//! How large the bit array is and how many probes each element gets.
//!
//! The array is sized from the scaled logarithm of the rate: the whole part of
//! `n * |log2 p|` for `n` expected elements and the rate `p`. Taking the
//! logarithm is floating-point work, which the caller does; this library takes
//! the result as a number.

use vstd::prelude::*;

verus! {

/// The number of bits in the array, given the scaled logarithm of the rate:
/// one more. With the scaled logarithm the whole part of `n * |log2 p|`, that
/// is `n * |log2 p|` rounded up, and one more where it is a whole number.
pub open spec fn bit_array_size(scaled: u64) -> int {
    scaled + 1
}

/// The number of probes per element for `n` expected elements in `m` bits:
/// the whole bits available per element, and at least one.
pub open spec fn probe_count(n: u32, m: u64) -> int
    recommends
        n > 0,
{
    if m / (n as u64) < 1 {
        1
    } else {
        (m / (n as u64)) as int
    }
}

/// The array has at least one bit, and for a positive capacity every element
/// gets at least one probe and no more probes than the array has bits.
pub proof fn lemma_sizing_bounds(n: u32, scaled: u64)
    requires
        n > 0,
        scaled < u64::MAX,
    ensures
        0 < bit_array_size(scaled) <= u64::MAX,
        1 <= probe_count(n, bit_array_size(scaled) as u64) <= bit_array_size(scaled),
{
    let m = bit_array_size(scaled) as u64;
    assert(m / (n as u64) <= m) by (nonlinear_arith)
        requires
            n > 0,
            m >= 0,
    ;
}

/// The array does not shrink as the scaled logarithm of the rate grows.
pub proof fn lemma_size_monotone(scaled1: u64, scaled2: u64)
    requires
        scaled1 <= scaled2,
    ensures
        bit_array_size(scaled1) <= bit_array_size(scaled2),
{
}

} // verus!
