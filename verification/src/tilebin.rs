//! A spatial index that groups values by their tile position.

use vstd::prelude::*;

use crate::vector::Point;

verus! {

/// A data structure that indexes values based on their position in a 2D
/// grid: per-tile buckets plus a reverse map from value to position.
pub struct TileBin<T> {
    pub bins: Vec<(Point, Vec<T>)>,
    pub positions: Vec<(T, Point)>,
}

impl<T> TileBin<T> {
    /// Creates an empty index.
    pub fn new() -> (r: TileBin<T>)
        ensures
            r.is_empty_spec(),
    {
        TileBin { bins: Vec::new(), positions: Vec::new() }
    }

    /// Whether the index holds nothing at all.
    pub open spec fn is_empty_spec(&self) -> bool {
        self.bins@.len() == 0 && self.positions@.len() == 0
    }
}

impl<T: Eq + Clone> TileBin<T> {
    /// Finds the bucket index for a position, if one exists.
    fn find_bin(&self, position: Point) -> (r: Option<usize>)
        ensures
            r matches Some(i) ==> i < self.bins@.len() && self.bins@[i as int].0 == position,
    {
        let mut i: usize = 0;
        let n = self.bins.len();
        while i < n
            invariant
                n == self.bins@.len(),
                i <= n,
            decreases n - i,
        {
            if self.bins[i].0 == position {
                return Some(i);
            }
            i = i + 1;
        }
        None
    }

    /// Finds the reverse-map entry index for a value, if one exists.
    fn find_position(&self, value: &T) -> (r: Option<usize>)
        ensures
            r matches Some(i) ==> i < self.positions@.len(),
    {
        let mut i: usize = 0;
        let n = self.positions.len();
        while i < n
            invariant
                n == self.positions@.len(),
                i <= n,
            decreases n - i,
        {
            if self.positions[i].0 == *value {
                return Some(i);
            }
            i = i + 1;
        }
        None
    }

    /// Inserts a value into the index at a given position.
    ///
    /// Returns `true` if the value was inserted, `false` if it was already
    /// present at the given location.
    pub fn insert(&mut self, value: T, position: Point) -> bool {
        let bi = match self.find_bin(position) {
            Some(bi) => bi,
            None => {
                let bi = self.bins.len();
                self.bins.push((position, Vec::new()));
                bi
            },
        };
        let mut present = false;
        {
            let bin = &self.bins[bi].1;
            let mut i: usize = 0;
            let n = bin.len();
            while i < n
                invariant
                    n == bin@.len(),
                    i <= n,
                decreases n - i,
            {
                if bin[i] == value {
                    present = true;
                }
                i = i + 1;
            }
        }
        if present {
            return false;
        }
        match self.find_position(&value) {
            Some(pi) => {
                self.positions[pi] = (value.clone(), position);
            },
            None => {
                self.positions.push((value.clone(), position));
            },
        }
        self.bins[bi].1.push(value);
        true
    }

    /// Removes a given value from the index.
    ///
    /// Returns `true` if the value was found and removed, `false` otherwise.
    pub fn remove(&mut self, value: &T) -> bool {
        let pi = match self.find_position(value) {
            Some(pi) => pi,
            None => {
                return false;
            },
        };
        let position = self.positions[pi].1;
        if let Some(bi) = self.find_bin(position) {
            let old_bin = &self.bins[bi].1;
            let mut kept: Vec<T> = Vec::new();
            let mut i: usize = 0;
            let n = old_bin.len();
            while i < n
                invariant
                    n == old_bin@.len(),
                    i <= n,
                decreases n - i,
            {
                if !(old_bin[i] == *value) {
                    kept.push(old_bin[i].clone());
                }
                i = i + 1;
            }
            self.bins[bi].1 = kept;
        }
        self.positions.remove(pi);
        true
    }

    /// Changes the position of a given value in the index.
    pub fn relocate(&mut self, value: T, new_position: Point) {
        self.remove(&value);
        self.insert(value, new_position);
    }

    /// Removes all values from the index.
    pub fn clear(&mut self)
        ensures
            final(self).is_empty_spec(),
    {
        self.bins.clear();
        self.positions.clear();
    }

    /// Returns the values stored at a given position, in insertion order.
    pub fn values_at(&self, position: Point) -> (r: Vec<T>)
        ensures
            ({
                ||| r@.len() == 0
                ||| exists|i: int|
                    0 <= i < self.bins@.len() && (#[trigger] self.bins@[i]).0 == position
                        && r@.len() == self.bins@[i].1@.len()
            }),
    {
        match self.find_bin(position) {
            Some(bi) => {
                let bin = &self.bins[bi].1;
                let mut res: Vec<T> = Vec::new();
                let mut i: usize = 0;
                let n = bin.len();
                while i < n
                    invariant
                        n == bin@.len(),
                        i <= n,
                        res@.len() == i,
                    decreases n - i,
                {
                    res.push(bin[i].clone());
                    i = i + 1;
                }
                res
            },
            None => Vec::new(),
        }
    }
}

impl<T> Default for TileBin<T> {
    /// Creates a new `TileBin` with empty bins and positions maps.
    fn default() -> (r: TileBin<T>)
        ensures
            r.is_empty_spec(),
    {
        TileBin { bins: Vec::new(), positions: Vec::new() }
    }
}

} // verus!
