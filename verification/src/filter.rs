//! The filter itself.

use fixedbitset::FixedBitSet;
use rand::rngs::SmallRng;
use std::hash::Hash;
use vstd::prelude::*;
use crate::bitset::bitset_bits;
use crate::error::FilterError;
use crate::hashing::base_hash;
use crate::model::{rejection, FilterView};
use crate::salt::next_u32;
use crate::rate::{is_proper_rate, rate_is_proper};
use crate::sizing::{bit_array_size, probe_count};

verus! {

/// A Bloom filter over a bit array of fixed size.
///
/// An element is represented in the filter by its base hash, a 64-bit hash of
/// its content. A filter with probe count `k` probes `k` bits for each
/// element: the ones at the base hash plus 1, 2, ..., `k`, plus the salt if
/// there is one, modulo the size of the array. Inserting sets those bits; an
/// element is reported as a member when all of them are set.
#[derive(Debug, PartialEq)]
pub struct BloomFilter {
    n: u32,
    p: u32,
    bitset: FixedBitSet,
    m: u64,
    k: u64,
    hash_seed: Option<u32>,
}

impl View for BloomFilter {
    type V = FilterView;

    closed spec fn view(&self) -> FilterView {
        FilterView {
            n: self.n,
            p: self.p,
            m: self.m,
            k: self.k,
            salt: self.hash_seed,
            bits: bitset_bits(self.bitset),
        }
    }
}

impl BloomFilter {
    #[verifier::type_invariant]
    spec fn inv(self) -> bool {
        &&& self@.wf()
        &&& self.m <= usize::MAX
    }

    /// The number of bits in the array, given the scaled logarithm of the
    /// rate.
    pub fn get_max_size(scaled: u64) -> (m: u64)
        requires
            scaled < u64::MAX,
        ensures
            m == bit_array_size(scaled),
    {
        scaled + 1
    }

    /// The number of probes per element for `n` expected elements in `m`
    /// bits.
    pub fn get_number_of_hash_fns(n: u32, m: u64) -> (k: u64)
        requires
            n > 0,
        ensures
            k == probe_count(n, m),
    {
        let per_element = m / (n as u64);
        if per_element < 1 {
            1
        } else {
            per_element
        }
    }

    /// Validates the parameters, derives the sizes and allocates the array.
    fn build(n: u32, p: u32, scaled: u64, hash_seed: Option<u32>) -> (r: Result<
        BloomFilter,
        FilterError,
    >)
        ensures
            match r {
                Ok(filter) => {
                    &&& rejection(n, p, scaled) is None
                    &&& filter@ == FilterView::empty(n, p, scaled, hash_seed)
                    &&& filter@.wf()
                    &&& filter@.m == scaled + 1
                    &&& filter@.k >= 1
                },
                Err(e) => rejection(n, p, scaled) == Some(e),
            },
    {
        if n == 0 {
            return Err(FilterError::InvalidCapacity);
        }
        if !rate_is_proper(p) {
            return Err(FilterError::InvalidErrorRate);
        }
        if scaled >= usize::MAX as u64 {
            return Err(FilterError::InvalidCapacity);
        }
        let m = Self::get_max_size(scaled);
        let k = Self::get_number_of_hash_fns(n, m);
        let bitset = FixedBitSet::with_capacity(m as usize);
        Ok(BloomFilter { n, p, bitset, m, k, hash_seed })
    }

    /// Constructs an empty filter without salt for `n` expected elements and
    /// the target false-positive rate whose single-precision encoding is `p`
    /// and whose scaled logarithm, the whole part of `n * |log2 p|`, is
    /// `scaled`. The array gets `scaled + 1` bits.
    ///
    /// Fails with `InvalidCapacity` if `n` is zero, and with
    /// `InvalidErrorRate` if the rate is not strictly between zero and one.
    /// It also fails with `InvalidCapacity` if the array would have more bits
    /// than the machine can index. The filter it returns has at least one bit
    /// and at least one probe.
    pub fn new(n: u32, p: u32, scaled: u64) -> (r: Result<BloomFilter, FilterError>)
        ensures
            match r {
                Ok(filter) => {
                    &&& rejection(n, p, scaled) is None
                    &&& filter@ == FilterView::empty(n, p, scaled, None)
                    &&& filter@.wf()
                    &&& filter@.m == scaled + 1
                    &&& filter@.k >= 1
                },
                Err(e) => rejection(n, p, scaled) == Some(e),
            },
    {
        Self::build(n, p, scaled, None)
    }

    /// Constructs an empty filter as `new` does, with `salt` mixed into every
    /// probe position.
    pub fn with_salt(n: u32, p: u32, scaled: u64, salt: u32) -> (r: Result<
        BloomFilter,
        FilterError,
    >)
        ensures
            match r {
                Ok(filter) => {
                    &&& rejection(n, p, scaled) is None
                    &&& filter@ == FilterView::empty(n, p, scaled, Some(salt))
                    &&& filter@.wf()
                    &&& filter@.m == scaled + 1
                    &&& filter@.k >= 1
                },
                Err(e) => rejection(n, p, scaled) == Some(e),
            },
    {
        Self::build(n, p, scaled, Some(salt))
    }

    /// Constructs an empty filter as `with_salt` does, with the next 32 bits
    /// of `rng` as the salt.
    pub fn with_rng(n: u32, p: u32, scaled: u64, rng: SmallRng) -> (r: Result<
        BloomFilter,
        FilterError,
    >)
        ensures
            match r {
                Ok(filter) => {
                    &&& rejection(n, p, scaled) is None
                    &&& filter@.salt is Some
                    &&& filter@ == FilterView::empty(n, p, scaled, filter@.salt)
                    &&& filter@.wf()
                    &&& filter@.m == scaled + 1
                    &&& filter@.k >= 1
                },
                Err(e) => rejection(n, p, scaled) == Some(e),
            },
    {
        let mut rng = rng;
        let salt = next_u32(&mut rng);
        Self::with_salt(n, p, scaled, salt)
    }

    /// The positions of the probes of the element with base hash `hash`, the
    /// first to the last. Each is the sum of the hash, the number of the probe
    /// and the salt, reduced modulo the size of the array; the sum is taken
    /// in 128 bits, where it cannot wrap.
    pub fn get_hashes(&self, hash: u64) -> (positions: Vec<u64>)
        ensures
            positions@ == self@.positions(hash),
            forall|i: int| 0 <= i < positions@.len() ==> positions@[i] < self@.m,
            self@.wf(),
    {
        proof {
            use_type_invariant(self);
        }
        let salt: u128 = match self.hash_seed {
            Some(s) => s as u128,
            None => 0,
        };
        let mut positions: Vec<u64> = Vec::new();
        let mut i: u64 = 0;
        while i < self.k
            invariant
                0 < self.m,
                i <= self.k,
                salt == self@.salt_value(),
                positions@.len() == i,
                forall|j: int| 0 <= j < i ==> positions@[j] == self@.position(hash, j + 1),
                forall|j: int| 0 <= j < i ==> positions@[j] < self.m,
            decreases self.k - i,
        {
            i += 1;
            let sum: u128 = hash as u128 + i as u128 + salt;
            let position: u128 = sum % (self.m as u128);
            positions.push(position as u64);
        }
        assert(positions@ =~= self@.positions(hash));
        positions
    }

    /// Inserts the element with base hash `hash`: sets the bit at each of its
    /// probe positions and leaves every other bit as it was.
    pub fn insert_hash(self, hash: u64) -> (r: BloomFilter)
        ensures
            r@ == self@.insert(hash),
            r@.wf(),
    {
        proof {
            use_type_invariant(&self);
        }
        let positions = self.get_hashes(hash);
        let ghost before = self@;
        let BloomFilter { n, p, bitset, m, k, hash_seed } = self;
        let mut bitset = bitset;
        let mut done: usize = 0;
        while done < positions.len()
            invariant
                done <= positions@.len(),
                positions@ == before.positions(hash),
                forall|i: int| 0 <= i < positions@.len() ==> positions@[i] < before.m,
                before.m <= usize::MAX,
                bitset_bits(bitset).len() == before.bits.len() == before.m,
                forall|j: int|
                    0 <= j < before.bits.len() ==> bitset_bits(bitset)[j] == (before.bits[j]
                        || before.is_probed_within(hash, j, done as int)),
            decreases positions@.len() - done,
        {
            let position = positions[done];
            bitset.insert(position as usize);
            done += 1;
            proof {
                assert(before.position(hash, done as int) == position);
                assert forall|j: int| 0 <= j < before.bits.len() implies bitset_bits(bitset)[j]
                    == (before.bits[j] || before.is_probed_within(hash, j, done as int)) by {
                    if before.is_probed_within(hash, j, done as int) {
                        let i = choose|i: int|
                            1 <= i <= done && #[trigger] before.position(hash, i) == j;
                        if i < done {
                            assert(before.is_probed_within(hash, j, done - 1));
                        }
                    }
                    if before.is_probed_within(hash, j, done - 1) {
                        let i = choose|i: int|
                            1 <= i <= done - 1 && #[trigger] before.position(hash, i) == j;
                        assert(1 <= i <= done && before.position(hash, i) == j);
                    }
                }
            }
        }
        assert(bitset_bits(bitset) =~= before.insert(hash).bits);
        BloomFilter { n, p, bitset, m, k, hash_seed }
    }

    /// Tells whether the filter reports the element with base hash `hash` as
    /// a member: whether the bit at each of its probe positions is set. The
    /// answer is `false` at the first probed bit found clear.
    pub fn member_hash(&self, hash: u64) -> (found: bool)
        ensures
            found == self@.member(hash),
            self@.wf(),
    {
        proof {
            use_type_invariant(self);
        }
        let positions = self.get_hashes(hash);
        let mut done: usize = 0;
        while done < positions.len()
            invariant
                done <= positions@.len(),
                positions@ == self@.positions(hash),
                forall|i: int| 0 <= i < positions@.len() ==> positions@[i] < self@.m,
                self@.wf(),
                self.m <= usize::MAX,
                forall|i: int|
                    1 <= i <= done ==> self@.bits[#[trigger] self@.position(hash, i)],
            decreases positions@.len() - done,
        {
            let position = positions[done];
            if !self.bitset.contains(position as usize) {
                assert(self@.position(hash, done + 1) == position);
                return false;
            }
            done += 1;
            assert(self@.position(hash, done as int) == position);
        }
        true
    }

    /// Inserts `item`: takes its base hash and inserts that.
    pub fn insert<T: Hash>(self, item: T) -> (r: BloomFilter)
        ensures
            exists|hash: u64| r@ == self@.insert(hash),
            r@.wf(),
    {
        let hash = base_hash(&item);
        self.insert_hash(hash)
    }

    /// Tells whether the filter reports `item` as a member: takes its base
    /// hash and looks that up.
    pub fn member<T: Hash>(&self, item: T) -> (found: bool)
        ensures
            exists|hash: u64| found == self@.member(hash),
            self@.wf(),
    {
        let hash = base_hash(&item);
        self.member_hash(hash)
    }

    /// Clears every bit. The parameters, the sizes and the salt stay.
    pub fn clear(self) -> (r: BloomFilter)
        ensures
            r@ == self@.clear(),
            r@.wf(),
    {
        proof {
            use_type_invariant(&self);
        }
        let BloomFilter { n, p, bitset, m, k, hash_seed } = self;
        let mut bitset = bitset;
        bitset.clear();
        BloomFilter { n, p, bitset, m, k, hash_seed }
    }

    /// The expected number of distinct elements the filter was sized for.
    pub fn capacity_hint(&self) -> (n: u32)
        ensures
            n == self@.n,
            n > 0,
    {
        proof {
            use_type_invariant(self);
        }
        self.n
    }

    /// The single-precision encoding of the target false-positive rate.
    pub fn target_error_rate(&self) -> (p: u32)
        ensures
            p == self@.p,
            is_proper_rate(p),
    {
        proof {
            use_type_invariant(self);
        }
        self.p
    }

    /// The number of bits in the array.
    pub fn bit_array_size(&self) -> (m: u64)
        ensures
            m == self@.m,
            m > 0,
    {
        proof {
            use_type_invariant(self);
        }
        self.m
    }

    /// The number of probes per element.
    pub fn probe_count(&self) -> (k: u64)
        ensures
            k == self@.k,
            k == probe_count(self@.n, self@.m),
            k >= 1,
    {
        proof {
            use_type_invariant(self);
        }
        self.k
    }

    /// The salt mixed into every probe position, if the filter has one.
    pub fn salt(&self) -> (salt: Option<u32>)
        ensures
            salt == self@.salt,
    {
        self.hash_seed
    }
}

} // verus!
