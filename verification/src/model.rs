//! The mathematical model of a filter: its parameters and its bits, with the
//! operations as functions on that model.

use vstd::prelude::*;
use crate::error::FilterError;
use crate::rate::is_proper_rate;
use crate::sizing::{bit_array_size, probe_count};

verus! {

/// What a filter is, as a value: the parameters it was constructed with, the
/// two sizes derived from them, and the state of every bit.
pub struct FilterView {
    /// The expected number of distinct elements.
    pub n: u32,
    /// The encoding of the target false-positive rate.
    pub p: u32,
    /// The number of bits in the array.
    pub m: u64,
    /// The number of probes per element.
    pub k: u64,
    /// The salt mixed into every probe, if the filter has one.
    pub salt: Option<u32>,
    /// The bit array, `true` for a bit that is set.
    pub bits: Seq<bool>,
}

/// Why a filter for `n` elements at the rate encoded by `p`, whose scaled
/// logarithm is `scaled`, cannot be constructed, if it cannot: the capacity is
/// zero, or the rate is not strictly between zero and one, or the array would
/// have more bits than the machine can index.
pub open spec fn rejection(n: u32, p: u32, scaled: u64) -> Option<FilterError> {
    if n == 0 {
        Some(FilterError::InvalidCapacity)
    } else if !is_proper_rate(p) {
        Some(FilterError::InvalidErrorRate)
    } else if bit_array_size(scaled) > usize::MAX {
        Some(FilterError::InvalidCapacity)
    } else {
        None
    }
}

/// Every positive capacity is accepted with every proper rate, as long as the
/// array can be indexed.
pub proof fn lemma_valid_parameters_are_accepted(n: u32, p: u32, scaled: u64)
    requires
        n > 0,
        is_proper_rate(p),
        scaled < usize::MAX,
    ensures
        rejection(n, p, scaled) is None,
{
}

impl FilterView {
    /// The parameters are valid, the array has at least one bit and its
    /// size, and the number of probes is the one derived from the capacity
    /// and the size.
    pub open spec fn wf(self) -> bool {
        &&& self.n > 0
        &&& is_proper_rate(self.p)
        &&& self.m > 0
        &&& self.k == probe_count(self.n, self.m)
        &&& self.bits.len() == self.m
    }

    /// The salt as a number; a filter without salt behaves as one with salt
    /// zero.
    pub open spec fn salt_value(self) -> int {
        match self.salt {
            Some(s) => s as int,
            None => 0,
        }
    }

    /// The position of the `i`-th probe of an element with base hash `hash`.
    /// The sum is taken in the integers: nothing wraps.
    pub open spec fn position(self, hash: u64, i: int) -> int {
        (hash + i + self.salt_value()) % (self.m as int)
    }

    /// The positions of all probes of an element, the first to the `k`-th.
    pub open spec fn positions(self, hash: u64) -> Seq<u64> {
        Seq::new(self.k as nat, |i: int| self.position(hash, i + 1) as u64)
    }

    /// Whether bit `j` is the position of one of the first `count` probes of
    /// an element.
    pub open spec fn is_probed_within(self, hash: u64, j: int, count: int) -> bool {
        exists|i: int| 1 <= i <= count && #[trigger] self.position(hash, i) == j
    }

    /// Whether bit `j` is the position of one of the probes of an element.
    pub open spec fn is_probed(self, hash: u64, j: int) -> bool {
        self.is_probed_within(hash, j, self.k as int)
    }

    /// The filter as constructed: the array sized from the scaled logarithm
    /// of the rate, every bit clear.
    pub open spec fn empty(n: u32, p: u32, scaled: u64, salt: Option<u32>) -> FilterView {
        let m = bit_array_size(scaled) as u64;
        FilterView {
            n,
            p,
            m,
            k: probe_count(n, m) as u64,
            salt,
            bits: Seq::new(m as nat, |j: int| false),
        }
    }

    /// The filter after the element with base hash `hash` is inserted: the
    /// bits at its probe positions are set, all others are as before.
    pub open spec fn insert(self, hash: u64) -> FilterView {
        FilterView {
            n: self.n,
            p: self.p,
            m: self.m,
            k: self.k,
            salt: self.salt,
            bits: Seq::new(self.bits.len(), |j: int| self.bits[j] || self.is_probed(hash, j)),
        }
    }

    /// The filter after the elements with the given base hashes are inserted
    /// one after the other.
    pub open spec fn insert_all(self, hashes: Seq<u64>) -> FilterView
        decreases hashes.len(),
    {
        if hashes.len() == 0 {
            self
        } else {
            self.insert_all(hashes.drop_last()).insert(hashes.last())
        }
    }

    /// Whether the filter reports the element with base hash `hash` as a
    /// member: the bits at all of its probe positions are set.
    pub open spec fn member(self, hash: u64) -> bool {
        forall|i: int| 1 <= i <= self.k ==> self.bits[#[trigger] self.position(hash, i)]
    }

    /// The filter with every bit clear and all parameters kept.
    pub open spec fn clear(self) -> FilterView {
        FilterView {
            n: self.n,
            p: self.p,
            m: self.m,
            k: self.k,
            salt: self.salt,
            bits: Seq::new(self.bits.len(), |j: int| false),
        }
    }
}

} // verus!
