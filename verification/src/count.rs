//! Counts that are never zero.

use vstd::prelude::*;

verus! {

/// A count of at least one.
#[derive(Debug, Clone, Copy, PartialEq, Eq)]
pub struct PositiveCount {
    value: usize,
}

impl View for PositiveCount {
    type V = usize;

    closed spec fn view(&self) -> usize {
        self.value
    }
}

impl PositiveCount {
    #[verifier::type_invariant]
    spec fn wf(&self) -> bool {
        self.value > 0
    }

    /// A count, unless it is zero.
    pub fn new(value: usize) -> (r: Option<Self>)
        ensures
            r is Some <==> value > 0,
            r matches Some(count) ==> count@ == value,
    {
        if value > 0 {
            Some(PositiveCount { value })
        } else {
            None
        }
    }

    /// The count as a number.
    pub fn get(&self) -> (r: usize)
        ensures
            r == self@,
            r > 0,
    {
        proof {
            use_type_invariant(self);
        }
        self.value
    }
}

} // verus!
