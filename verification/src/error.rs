//! Why a filter could not be constructed.

use vstd::prelude::*;

verus! {

/// A construction parameter that was refused.
#[derive(Clone, Copy, Debug, PartialEq, Eq, Structural)]
pub enum FilterError {
    /// The expected number of elements was zero, or the bit array asked for
    /// has more bits than the machine can index.
    InvalidCapacity,
    /// The target false-positive rate was not strictly between zero and one.
    InvalidErrorRate,
}

impl FilterError {
    /// A short description of the error, for messages.
    pub fn message(&self) -> (s: &'static str)
        ensures
            s@ == (match *self {
                FilterError::InvalidCapacity => "capacity hint must be positive"@,
                FilterError::InvalidErrorRate => "target error rate must lie strictly between 0 and 1"@,
            }),
    {
        match self {
            FilterError::InvalidCapacity => "capacity hint must be positive",
            FilterError::InvalidErrorRate => "target error rate must lie strictly between 0 and 1",
        }
    }
}

} // verus!
