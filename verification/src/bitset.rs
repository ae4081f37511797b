//! What the filter relies on from `fixedbitset::FixedBitSet`, its bit array.
//!
//! Nothing here is proved: each contract restates what the crate documents
//! of the method it is attached to.

use fixedbitset::FixedBitSet;
use vstd::prelude::*;

verus! {

/// `fixedbitset::FixedBitSet`, known only through `bitset_bits`.
#[verifier::external_type_specification]
#[verifier::external_body]
pub struct ExFixedBitSet(FixedBitSet);

/// The bits of a set in index order, `true` for an enabled bit. The length is
/// the number of bits the set was created with.
pub uninterp spec fn bitset_bits(set: FixedBitSet) -> Seq<bool>;

/// `FixedBitSet::with_capacity` creates a set of `bits` bits, all of them
/// disabled.
pub assume_specification[ FixedBitSet::with_capacity ](bits: usize) -> (set: FixedBitSet)
    ensures
        bitset_bits(set) == Seq::new(bits as nat, |i: int| false),
;

/// `FixedBitSet::insert` enables one bit and leaves the others as they were.
/// It panics on a bit at or beyond the length, which is therefore left out.
pub assume_specification[ FixedBitSet::insert ](set: &mut FixedBitSet, bit: usize)
    requires
        bit < bitset_bits(*old(set)).len(),
    ensures
        bitset_bits(*final(set)) == bitset_bits(*old(set)).update(bit as int, true),
;

/// `FixedBitSet::contains` tells whether a bit below the length is enabled.
/// Nothing is claimed of a bit at or beyond the length.
pub assume_specification[ FixedBitSet::contains ](set: &FixedBitSet, bit: usize) -> (enabled: bool)
    ensures
        bit < bitset_bits(*set).len() ==> enabled == bitset_bits(*set)[bit as int],
;

/// `FixedBitSet::clear` disables every bit and keeps the length.
pub assume_specification[ FixedBitSet::clear ](set: &mut FixedBitSet)
    ensures
        bitset_bits(*final(set)) == Seq::new(bitset_bits(*old(set)).len(), |i: int| false),
;

} // verus!
