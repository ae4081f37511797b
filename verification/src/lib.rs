//! A Bloom filter: a fixed bit array that answers approximate membership
//! queries without false negatives.
//!
//! A filter is constructed for an expected number of elements and a target
//! false-positive rate, given as the bits of its single-precision encoding
//! (`rate`), together with the scaled logarithm of the rate, from which it
//! derives the size of its bit array and the number of probes per element
//! (`sizing`). Elements enter by their base hash (`hashing`), from
//! which the probe positions follow (`filter`). What a filter is and does is
//! stated over a mathematical model (`model`), of which `laws` proves that
//! inserted elements are always found, that inserting twice is inserting
//! once, and that clearing empties the filter.

pub mod bitset;
pub mod error;
pub mod filter;
pub mod hashing;
pub mod laws;
pub mod model;
pub mod rate;
pub mod salt;
pub mod sizing;

pub use error::FilterError;
pub use filter::BloomFilter;
