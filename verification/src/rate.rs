//! The target false-positive rate, held as the 32 bits of its IEEE 754
//! single-precision encoding.
//!
//! The encoding has a sign bit, an 8-bit biased exponent `e` and a 23-bit
//! fraction `f`. With `e` neither 0 nor 255 it stands for the normal number
//! `(2^23 + f) * 2^(e - 150)`, with `e` zero for the subnormal number
//! `f * 2^-149`, and with `e` 255 for an infinity or a NaN. This module says
//! which encodings stand for a number strictly between zero and one.

use vstd::arithmetic::power2::{lemma2_to64, lemma_pow2_pos, lemma_pow2_strictly_increases, pow2};
use vstd::prelude::*;

verus! {

/// The encoding of the value one.
pub const ONE: u32 = 0x3F80_0000;

/// The sign bit of an encoding.
pub open spec fn sign_field(bits: u32) -> int {
    bits as int / 0x8000_0000
}

/// The biased exponent of an encoding.
pub open spec fn exponent_field(bits: u32) -> int {
    (bits as int / 0x80_0000) % 0x100
}

/// The fraction of an encoding.
pub open spec fn fraction_field(bits: u32) -> int {
    bits as int % 0x80_0000
}

/// Whether an encoding stands for a number, not for an infinity or a NaN.
pub open spec fn is_finite(bits: u32) -> bool {
    exponent_field(bits) != 0xFF
}

/// The significand of a finite encoding: the fraction, with the implicit
/// leading bit unless the encoding is subnormal.
pub open spec fn significand(bits: u32) -> int {
    if exponent_field(bits) == 0 {
        fraction_field(bits)
    } else {
        0x80_0000 + fraction_field(bits)
    }
}

/// The power of two by which the significand of a finite encoding is
/// multiplied.
pub open spec fn scale(bits: u32) -> int {
    if exponent_field(bits) == 0 {
        -149
    } else {
        exponent_field(bits) - 150
    }
}

/// The numerator of the magnitude of a finite encoding, as a fraction of
/// whole numbers.
pub open spec fn numerator(bits: u32) -> int {
    if scale(bits) >= 0 {
        significand(bits) * pow2(scale(bits) as nat)
    } else {
        significand(bits)
    }
}

/// The denominator of the magnitude of a finite encoding, as a fraction of
/// whole numbers.
pub open spec fn denominator(bits: u32) -> int {
    if scale(bits) >= 0 {
        1
    } else {
        pow2((-scale(bits)) as nat) as int
    }
}

/// Whether `bits` encodes a number strictly between zero and one.
pub open spec fn is_proper_rate(bits: u32) -> bool {
    &&& sign_field(bits) == 0
    &&& is_finite(bits)
    &&& 0 < numerator(bits) < denominator(bits)
}

/// The encodings of the numbers strictly between zero and one are those
/// strictly between the encoding of zero and the encoding of one. Their sign
/// is clear and their biased exponent is below 127.
pub proof fn lemma_proper_rate_encodings(bits: u32)
    ensures
        is_proper_rate(bits) <==> 0 < bits < ONE,
        is_proper_rate(bits) ==> sign_field(bits) == 0 && exponent_field(bits) < 127,
        is_proper_rate(bits) ==> numerator(bits) == significand(bits) && denominator(bits) == pow2(
            (-scale(bits)) as nat,
        ),
{
    lemma2_to64();
    let e = exponent_field(bits);
    let sig = significand(bits);
    if sign_field(bits) == 0 && e != 0xFF {
        if e > 150 {
            lemma_pow2_pos((e - 150) as nat);
            let factor = pow2((e - 150) as nat);
            assert(sig * factor >= 1) by (nonlinear_arith)
                requires
                    sig >= 1,
                    factor >= 1,
            ;
        } else if e >= 127 {
            // the denominator is at most 2^23, the significand at least 2^23
            if 0 < 150 - e < 23 {
                lemma_pow2_strictly_increases((150 - e) as nat, 23);
            }
        } else if e >= 1 {
            // the denominator is at least 2^24, the significand below 2^24
            if 150 - e > 24 {
                lemma_pow2_strictly_increases(24, (150 - e) as nat);
            }
        } else {
            // subnormal: the significand is the fraction, below 2^23
            lemma_pow2_strictly_increases(24, 149);
        }
    }
}

/// Decides whether `bits` encodes a number strictly between zero and one.
pub fn rate_is_proper(bits: u32) -> (ok: bool)
    ensures
        ok == is_proper_rate(bits),
{
    proof {
        lemma_proper_rate_encodings(bits);
    }
    0 < bits && bits < ONE
}

} // verus!
