//! A priority queue entry whose ordering is reversed, turning a max-heap
//! into a min-heap.

use vstd::prelude::*;
use vstd::std_specs::cmp::{PartialEqSpec, PartialOrdSpec};

verus! {

/// A priority queue entry with a value and a priority; comparisons look at
/// the priority only and are flipped, so a max-heap of entries pops the
/// smallest priority first.
#[derive(Debug, Clone)]
pub struct MinHeapEntry<T, P> {
    pub value: T,
    pub priority: P,
}

impl<T, P: PartialEq> PartialEq for MinHeapEntry<T, P> {
    /// Returns `true` if the priorities of `self` and `other` are equal.
    fn eq(&self, other: &Self) -> (r: bool) {
        self.priority == other.priority
    }
}

impl<T, P: PartialEq> vstd::std_specs::cmp::PartialEqSpecImpl for MinHeapEntry<T, P> {
    open spec fn obeys_eq_spec() -> bool {
        P::obeys_eq_spec()
    }

    open spec fn eq_spec(&self, other: &Self) -> bool {
        self.priority.eq_spec(&other.priority)
    }
}

impl<T, P: PartialEq + Eq> Eq for MinHeapEntry<T, P> {

}

impl<T, P: PartialOrd> PartialOrd<Self> for MinHeapEntry<T, P> {
    /// Compares the priorities of `other` and `self`, flipped to order a
    /// min-heap.
    fn partial_cmp(&self, other: &Self) -> (r: Option<std::cmp::Ordering>) {
        other.priority.partial_cmp(&self.priority)
    }
}

impl<T, P: PartialOrd> vstd::std_specs::cmp::PartialOrdSpecImpl<Self> for MinHeapEntry<T, P> {
    open spec fn obeys_partial_cmp_spec() -> bool {
        P::obeys_partial_cmp_spec()
    }

    open spec fn partial_cmp_spec(&self, other: &Self) -> Option<std::cmp::Ordering> {
        other.priority.partial_cmp_spec(&self.priority)
    }
}

} // verus!
