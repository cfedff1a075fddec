//! Exact rational slopes used to bound angular wedges in the shadowcasting
//! scan, compared by cross-multiplication so no precision is ever lost.

use vstd::prelude::*;

verus! {

/// Represents a slope as a rise and run.
///
/// Construction normalizes the sign so that `run >= 0`. Comparisons
/// cross-multiply (`rise1 * run2` against `rise2 * run1`), which is exact and
/// orders slopes correctly whenever both runs are positive; the degenerate
/// `ZERO` sentinel (run 0) compares as equal to everything, which the scan
/// exploits as "no lower bound".
#[derive(Debug, Clone, Copy, PartialEq, Eq, Structural, Hash)]
pub struct Slope {
    pub rise: i32,
    pub run: i32,
}

/// Cross-multiplied strict comparison of two slopes, over unbounded integers.
pub open spec fn slope_lt(a: Slope, b: Slope) -> bool {
    a.rise * b.run < b.rise * a.run
}

/// The value `Slope::new(rise, run)` produces: the pair with sign normalized
/// so the run is nonnegative.
pub open spec fn slope_new_spec(rise: int, run: int) -> Slope {
    if run < 0 {
        Slope { rise: (-rise) as i32, run: (-run) as i32 }
    } else {
        Slope { rise: rise as i32, run: run as i32 }
    }
}

impl Slope {
    /// The slope 1/1: the upper bound of a full octant wedge.
    pub fn one() -> (r: Slope)
        ensures
            r == (Slope { rise: 1, run: 1 }),
    {
        Slope { rise: 1, run: 1 }
    }

    /// The degenerate slope 0/0, used as the "no lower bound" sentinel.
    pub fn zero() -> (r: Slope)
        ensures
            r == (Slope { rise: 0, run: 0 }),
    {
        Slope { rise: 0, run: 0 }
    }

    /// Creates a slope, negating both components when the run is negative.
    pub fn new(rise: i32, run: i32) -> (r: Slope)
        requires
            rise > i32::MIN,
            run > i32::MIN,
        ensures
            r == slope_new_spec(rise as int, run as int),
            r.run >= 0,
    {
        if run < 0 {
            Slope { rise: -rise, run: -run }
        } else {
            Slope { rise, run }
        }
    }

    /// Returns whether this slope is strictly below `other` under
    /// cross-multiplied comparison.
    pub fn lt(&self, other: &Slope) -> (r: bool)
        ensures
            r == slope_lt(*self, *other),
    {
        proof {
            crate::numeric::lemma_mul_bounds(self.rise as int, other.run as int, 0x8000_0000);
            crate::numeric::lemma_mul_bounds(other.rise as int, self.run as int, 0x8000_0000);
        }
        (self.rise as i64) * (other.run as i64) < (other.rise as i64) * (self.run as i64)
    }

    /// Returns whether this slope is strictly above `other` under
    /// cross-multiplied comparison.
    pub fn gt(&self, other: &Slope) -> (r: bool)
        ensures
            r == slope_lt(*other, *self),
    {
        proof {
            crate::numeric::lemma_mul_bounds(self.rise as int, other.run as int, 0x8000_0000);
            crate::numeric::lemma_mul_bounds(other.rise as int, self.run as int, 0x8000_0000);
        }
        (other.rise as i64) * (self.run as i64) < (self.rise as i64) * (other.run as i64)
    }
}

impl std::cmp::PartialOrd<Slope> for Slope {
    fn partial_cmp(&self, other: &Slope) -> (r: Option<std::cmp::Ordering>) {
        proof {
            crate::numeric::lemma_mul_bounds(self.rise as int, other.run as int, 0x8000_0000);
            crate::numeric::lemma_mul_bounds(other.rise as int, self.run as int, 0x8000_0000);
        }
        let l = (self.rise as i64) * (other.run as i64);
        let r = (other.rise as i64) * (self.run as i64);
        if l < r {
            Some(std::cmp::Ordering::Less)
        } else if l == r {
            Some(std::cmp::Ordering::Equal)
        } else {
            Some(std::cmp::Ordering::Greater)
        }
    }
}

impl vstd::std_specs::cmp::PartialOrdSpecImpl<Slope> for Slope {
    open spec fn obeys_partial_cmp_spec() -> bool {
        true
    }

    open spec fn partial_cmp_spec(&self, other: &Slope) -> Option<std::cmp::Ordering> {
        if self.rise * other.run < other.rise * self.run {
            Some(std::cmp::Ordering::Less)
        } else if self.rise * other.run == other.rise * self.run {
            Some(std::cmp::Ordering::Equal)
        } else {
            Some(std::cmp::Ordering::Greater)
        }
    }
}

} // verus!
