//! The base hash of an element.

use std::collections::hash_map::DefaultHasher;
use std::hash::{Hash, Hasher};
use vstd::prelude::*;

verus! {

/// `Hash::hash` feeds the content of `item` into `state`. What it feeds is up
/// to the implementation of `Hash` for `T`, so nothing is claimed of the
/// state afterwards.
#[verifier::external_body]
fn feed<T: Hash>(item: &T, state: &mut DefaultHasher) {
    item.hash(state)
}

/// The base hash of an element: what a fresh `DefaultHasher` returns after
/// the element alone was fed into it.
pub fn base_hash<T: Hash>(item: &T) -> u64 {
    let mut state = DefaultHasher::new();
    feed(item, &mut state);
    state.finish()
}

} // verus!
