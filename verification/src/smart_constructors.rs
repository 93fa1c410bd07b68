//! The state of a backend that keeps none.

use vstd::prelude::*;

verus! {

/// A state without data, for a backend that needs no bookkeeping.
///
/// There is one value of this type, so any two states of it are equal.
#[derive(Debug, PartialEq, Eq, Structural)]
pub struct NoState;

impl Clone for NoState {
    fn clone(&self) -> (s: Self)
        ensures
            s == *self,
    {
        NoState {}
    }
}

} // verus!
