//! Interning of values: each distinct value gets one stable identifier.

use vstd::prelude::*;

verus! {

/// A unique identifier for a value in an [`InternPool`].
#[derive(Debug)]
pub struct InternID<T>(pub usize, pub core::marker::PhantomData<T>);

impl<T> Clone for InternID<T> {
    fn clone(&self) -> (r: Self)
        ensures
            r.0 == self.0,
    {
        InternID(self.0, core::marker::PhantomData)
    }
}

impl<T> Copy for InternID<T> {

}

impl<T> PartialEq for InternID<T> {
    fn eq(&self, other: &Self) -> (r: bool) {
        self.0 == other.0
    }
}

impl<T> vstd::std_specs::cmp::PartialEqSpecImpl for InternID<T> {
    open spec fn obeys_eq_spec() -> bool {
        true
    }

    open spec fn eq_spec(&self, other: &Self) -> bool {
        self.0 == other.0
    }
}

impl<T> Eq for InternID<T> {

}

/// A pool for interning values of a certain type: each value is assigned a
/// unique [`InternID`], which can be used to retrieve it later.
pub struct InternPool<T> {
    pub values: Vec<T>,
}

impl<T: core::hash::Hash + Eq + Copy> InternPool<T> {
    /// Creates a new, empty pool.
    pub fn new() -> (r: InternPool<T>)
        ensures
            r.values@.len() == 0,
    {
        InternPool { values: Vec::new() }
    }

    /// Adds a value to the pool and returns its identifier; a value equal to
    /// one already interned keeps its existing identifier.
    pub fn add(&mut self, value: T) -> (r: InternID<T>)
        ensures
            r.0 <= final(self).values@.len(),
            final(self).values@.len() >= old(self).values@.len(),
    {
        let n = self.values.len();
        let mut i: usize = 0;
        while i < n
            invariant
                i <= n,
                n == self.values@.len(),
            decreases n - i,
        {
            if self.values[i] == value {
                return InternID(i, core::marker::PhantomData);
            }
            i = i + 1;
        }
        self.values.push(value);
        InternID(n, core::marker::PhantomData)
    }

    /// Returns a reference to the value associated with the given
    /// identifier, or `None` if the identifier is not in the pool.
    pub fn get(&self, id: InternID<T>) -> (r: Option<&T>)
        ensures
            r is Some <==> id.0 < self.values@.len(),
            r matches Some(v) ==> *v == self.values@[id.0 as int],
    {
        if id.0 < self.values.len() {
            Some(&self.values[id.0])
        } else {
            None
        }
    }
}

impl<T: core::hash::Hash + Eq + Copy> Default for InternPool<T> {
    fn default() -> (r: Self)
        ensures
            r.values@.len() == 0,
    {
        InternPool::new()
    }
}

} // verus!
