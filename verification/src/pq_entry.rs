//! A priority queue entry ordered by priority alone.

use vstd::prelude::*;
use vstd::std_specs::cmp::{PartialEqSpec, PartialOrdSpec};

verus! {

/// A priority queue entry with a value and a priority; comparisons look at
/// the priority only, so a max-heap of entries pops the greatest priority.
#[derive(Debug, Clone)]
pub struct PQEntry<T, P> {
    pub value: T,
    pub priority: P,
}

impl<T, P: PartialEq> PartialEq for PQEntry<T, P> {
    /// Returns `true` if the priorities of `self` and `other` are equal.
    fn eq(&self, other: &Self) -> (r: bool) {
        self.priority == other.priority
    }
}

impl<T, P: PartialEq> vstd::std_specs::cmp::PartialEqSpecImpl for PQEntry<T, P> {
    open spec fn obeys_eq_spec() -> bool {
        P::obeys_eq_spec()
    }

    open spec fn eq_spec(&self, other: &Self) -> bool {
        self.priority.eq_spec(&other.priority)
    }
}

impl<T, P: PartialEq + Eq> Eq for PQEntry<T, P> {

}

impl<T, P: PartialOrd> PartialOrd<Self> for PQEntry<T, P> {
    /// Compares the priorities of `self` and `other`.
    fn partial_cmp(&self, other: &Self) -> (r: Option<std::cmp::Ordering>) {
        self.priority.partial_cmp(&other.priority)
    }
}

impl<T, P: PartialOrd> vstd::std_specs::cmp::PartialOrdSpecImpl<Self> for PQEntry<T, P> {
    open spec fn obeys_partial_cmp_spec() -> bool {
        P::obeys_partial_cmp_spec()
    }

    open spec fn partial_cmp_spec(&self, other: &Self) -> Option<std::cmp::Ordering> {
        self.priority.partial_cmp_spec(&other.priority)
    }
}

} // verus!
