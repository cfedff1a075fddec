//! Axis-aligned integer bounding boxes.

use vstd::prelude::*;

use crate::numeric::{div_trunc, div_trunc_spec};
use crate::vector::Vector2;

verus! {

broadcast use vstd::seq_lib::group_seq_properties;

/// A bounding box in two-dimensional space defined by a minimum (inclusive)
/// and maximum (exclusive) point.
#[derive(Debug, Clone, Copy, PartialEq, Eq, Structural, Hash)]
pub struct Bounds {
    /// The minimum point of the bounding box (inclusive).
    pub min: Vector2,
    /// The maximum point of the bounding box (exclusive).
    pub max: Vector2,
}

/// A rectangle in 2D space with integer coordinates; alias for [`Bounds`].
pub type Rect = Bounds;

/// A coordinate small enough for box arithmetic (sizes, centers, sums of
/// two coordinates) to stay inside `i32`.
pub open spec fn box_coord(c: int) -> bool {
    -0x2000_0000 <= c && c <= 0x2000_0000
}

/// All four coordinates of the box are small enough for its arithmetic
/// (sizes, centers, sums) to stay inside `i32`.
pub open spec fn bounds_in_range(b: Bounds) -> bool {
    &&& box_coord(b.min.x as int)
    &&& box_coord(b.min.y as int)
    &&& box_coord(b.max.x as int)
    &&& box_coord(b.max.y as int)
}

impl Bounds {
    /// Whether `point` lies inside the box, as a mathematical statement.
    pub open spec fn spec_contains(self, point: Vector2) -> bool {
        &&& point.x >= self.min.x
        &&& point.x < self.max.x
        &&& point.y >= self.min.y
        &&& point.y < self.max.y
    }

    /// Creates a new bounding box with the specified minimum and maximum
    /// points.
    pub fn with_points(min: Vector2, max: Vector2) -> (r: Bounds)
        ensures
            r.min == min,
            r.max == max,
    {
        Bounds { min, max }
    }

    /// Returns true if the specified point is contained within the bounding
    /// box, false otherwise.
    pub fn contains(&self, point: Vector2) -> (r: bool)
        ensures
            r == self.spec_contains(point),
    {
        point.x >= self.min.x && point.x < self.max.x && point.y >= self.min.y && point.y
            < self.max.y
    }

    /// Returns true if the bounding box intersects with the specified other
    /// bounding box, false otherwise.
    pub fn intersects(&self, other: &Bounds) -> (r: bool)
        ensures
            r == (self.min.x <= other.max.x && self.max.x >= other.min.x && self.min.y
                <= other.max.y && self.max.y >= other.min.y),
    {
        self.min.x <= other.max.x && self.max.x >= other.min.x && self.min.y <= other.max.y
            && self.max.y >= other.min.y
    }

    /// Calls the closure `f` for each integer point within the bounding box,
    /// in row-major order.
    #[verifier::loop_isolation(false)]
    pub fn for_each<F: FnMut(Vector2)>(&self, f: F)
        requires
            forall|cb: F, p: Vector2| #[trigger] call_requires(cb, (p,)),
    {
        let mut f = f;
        let mut y = self.min.y;
        while y < self.max.y
            invariant
                self.min.y <= y <= self.max.y || y == self.min.y,
            decreases self.max.y - y,
        {
            let mut x = self.min.x;
            while x < self.max.x
                invariant
                    self.min.x <= x <= self.max.x || x == self.min.x,
                    y < self.max.y,
                decreases self.max.x - x,
            {
                f(Vector2 { x, y });
                x = x + 1;
            }
            y = y + 1;
        }
    }

    /// Returns a vector of all integer points within the bounding box, in
    /// row-major order.
    #[verifier::loop_isolation(false)]
    pub fn contained_points(&self) -> (r: Vec<Vector2>)
        requires
            bounds_in_range(*self),
        ensures
            forall|p: Vector2| r@.contains(p) <==> self.spec_contains(p),
            self.min.x < self.max.x && self.min.y < self.max.y ==> r@.len() == (self.max.x
                - self.min.x) * (self.max.y - self.min.y),
    {
        let mut res: Vec<Vector2> = Vec::new();
        let mut y = self.min.y;
        if self.max.x <= self.min.x || self.max.y <= self.min.y {
            proof {
                assert(forall|p: Vector2| res@.contains(p) <==> self.spec_contains(p));
            }
            return res;
        }
        while y < self.max.y
            invariant
                bounds_in_range(*self),
                self.min.y <= y <= self.max.y,
                self.min.x < self.max.x,
                self.min.y < self.max.y,
                res@.len() == (self.max.x - self.min.x) * (y - self.min.y),
                forall|p: Vector2|
                    res@.contains(p) <==> (self.spec_contains(p) && p.y < y),
            decreases self.max.y - y,
        {
            let mut x = self.min.x;
            while x < self.max.x
                invariant
                    bounds_in_range(*self),
                    self.min.x <= x <= self.max.x,
                    self.min.y <= y < self.max.y,
                    res@.len() == (self.max.x - self.min.x) * (y - self.min.y) + (x - self.min.x),
                    forall|p: Vector2|
                        res@.contains(p) <==> (self.spec_contains(p) && (p.y < y || (p.y == y && p.x
                            < x))),
                decreases self.max.x - x,
            {
                let ghost before = res@;
                res.push(Vector2 { x, y });
                proof {
                    assert forall|p: Vector2|
                        res@.contains(p) <==> (self.spec_contains(p) && (p.y < y || (p.y == y && p.x
                            < x + 1))) by {
                        if res@.contains(p) {
                            if before.contains(p) {
                            } else {
                                assert(p == (Vector2 { x, y }));
                            }
                        }
                        if self.spec_contains(p) && (p.y < y || (p.y == y && p.x < x + 1)) {
                            if p.y == y && p.x == x {
                                assert(res@[res@.len() - 1] == p);
                            } else {
                                assert(before.contains(p));
                            }
                        }
                    }
                }
                x = x + 1;
            }
            proof {
                assert((self.max.x - self.min.x) * (y - self.min.y) + (self.max.x - self.min.x)
                    == (self.max.x - self.min.x) * (y + 1 - self.min.y)) by (nonlinear_arith);
            }
            y = y + 1;
        }
        res
    }

    /// Calls the closure `f` for each integer point along the border of the
    /// bounding box.
    #[verifier::loop_isolation(false)]
    pub fn for_each_border<F: FnMut(Vector2)>(&self, f: F)
        requires
            bounds_in_range(*self),
            forall|cb: F, p: Vector2| #[trigger] call_requires(cb, (p,)),
    {
        let mut f = f;
        let mut x = self.min.x;
        while x < self.max.x
            invariant
                bounds_in_range(*self),
                self.min.x <= x,
            decreases self.max.x - x,
        {
            f(Vector2 { x, y: self.min.y });
            f(Vector2 { x, y: self.max.y - 1 });
            x = x + 1;
        }
        let mut y = self.min.y + 1;
        while y < self.max.y - 1
            invariant
                bounds_in_range(*self),
                self.min.y + 1 <= y,
            decreases self.max.y - 1 - y,
        {
            f(Vector2 { x: self.min.x, y });
            f(Vector2 { x: self.max.x - 1, y });
            y = y + 1;
        }
    }

    /// Returns a `Vector2` representing the size of this bounding box.
    pub fn size(&self) -> (r: Vector2)
        requires
            bounds_in_range(*self),
        ensures
            r.x == self.max.x - self.min.x,
            r.y == self.max.y - self.min.y,
    {
        Vector2 { x: self.max.x - self.min.x, y: self.max.y - self.min.y }
    }

    /// Returns a new `Bounds` instance with the specified minimum point and
    /// size.
    pub fn with_size(min: Vector2, size: Vector2) -> (r: Bounds)
        requires
            box_coord(min.x as int),
            box_coord(min.y as int),
            box_coord(size.x as int),
            box_coord(size.y as int),
        ensures
            r.min == min,
            r.max.x == min.x + size.x,
            r.max.y == min.y + size.y,
    {
        Bounds { min, max: Vector2 { x: min.x + size.x, y: min.y + size.y } }
    }

    /// The center point of the box, each coordinate the truncating average
    /// of the corresponding bounds.
    pub open spec fn spec_center(self) -> Vector2 {
        Vector2 {
            x: div_trunc_spec(self.min.x + self.max.x, 2) as i32,
            y: div_trunc_spec(self.min.y + self.max.y, 2) as i32,
        }
    }

    /// Returns the center point of the box.
    pub fn center(&self) -> (r: Vector2)
        requires
            bounds_in_range(*self),
        ensures
            r == self.spec_center(),
    {
        Vector2 {
            x: div_trunc(self.min.x + self.max.x, 2),
            y: div_trunc(self.min.y + self.max.y, 2),
        }
    }

    /// Returns a new `Bounds` instance with the specified center point and
    /// size.
    pub fn with_center(center: Vector2, size: Vector2) -> (r: Bounds)
        requires
            box_coord(center.x as int),
            box_coord(center.y as int),
            0 <= size.x,
            0 <= size.y,
            box_coord(size.x as int),
            box_coord(size.y as int),
        ensures
            r.min.x == center.x - div_trunc_spec(size.x as int, 2),
            r.min.y == center.y - div_trunc_spec(size.y as int, 2),
            r.max.x == r.min.x + size.x,
            r.max.y == r.min.y + size.y,
    {
        let hx = div_trunc(size.x, 2);
        let hy = div_trunc(size.y, 2);
        let min = Vector2 { x: center.x - hx, y: center.y - hy };
        Bounds { min, max: Vector2 { x: min.x + size.x, y: min.y + size.y } }
    }

    /// The quadrant of the box a query point belongs to, numbered 0 to 3
    /// counterclockwise from the upper right.
    pub open spec fn spec_quadrant_idx(self, query: Vector2) -> int {
        let c = self.spec_center();
        if query.x < c.x {
            if query.y < c.y {
                2
            } else {
                1
            }
        } else {
            if query.y < c.y {
                3
            } else {
                0
            }
        }
    }

    /// Returns one of the four quadrants of this box: index 0 is the upper
    /// right (x+, y+), continuing counterclockwise.
    pub fn quadrant(&self, index: usize) -> (r: Bounds)
        requires
            bounds_in_range(*self),
            index < 4,
        ensures
            ({
                let c = self.spec_center();
                &&& (index == 0 ==> r == Bounds {
                    min: Vector2 { x: c.x, y: c.y },
                    max: self.max,
                })
                &&& (index == 1 ==> r == Bounds {
                    min: Vector2 { x: self.min.x, y: c.y },
                    max: Vector2 { x: c.x, y: self.max.y },
                })
                &&& (index == 2 ==> r == Bounds { min: self.min, max: c })
                &&& (index == 3 ==> r == Bounds {
                    min: Vector2 { x: c.x, y: self.min.y },
                    max: Vector2 { x: self.max.x, y: c.y },
                })
            }),
    {
        let x_lt = index == 1 || index == 2;
        let y_lt = index == 2 || index == 3;
        let center = self.center();
        let min = Vector2 {
            x: if x_lt {
                self.min.x
            } else {
                center.x
            },
            y: if y_lt {
                self.min.y
            } else {
                center.y
            },
        };
        let max = Vector2 {
            x: if x_lt {
                center.x
            } else {
                self.max.x
            },
            y: if y_lt {
                center.y
            } else {
                self.max.y
            },
        };
        Bounds { min, max }
    }

    /// Returns the index of the quadrant containing the query point.
    pub fn containing_quadrant_idx(&self, query: Vector2) -> (r: usize)
        requires
            bounds_in_range(*self),
        ensures
            r == self.spec_quadrant_idx(query),
    {
        let center = self.center();
        let x_lt = query.x < center.x;
        let y_lt = query.y < center.y;
        if x_lt {
            if y_lt {
                2
            } else {
                1
            }
        } else {
            if y_lt {
                3
            } else {
                0
            }
        }
    }

    /// Returns the sub-rectangle at `offset` from this box's minimum corner
    /// with the given size, clipped to this box's maximum corner.
    pub fn sub_rect(&self, offset: Vector2, size: Vector2) -> (r: Bounds)
        requires
            bounds_in_range(*self),
            box_coord(offset.x as int),
            box_coord(offset.y as int),
            0 <= size.x,
            0 <= size.y,
            box_coord(size.x as int),
            box_coord(size.y as int),
        ensures
            r.min.x == self.min.x + offset.x,
            r.min.y == self.min.y + offset.y,
            r.max.x == if r.min.x + size.x <= self.max.x {
                r.min.x + size.x
            } else {
                self.max.x as int
            },
            r.max.y == if r.min.y + size.y <= self.max.y {
                r.min.y + size.y
            } else {
                self.max.y as int
            },
    {
        let pt1 = Vector2 { x: self.min.x + offset.x, y: self.min.y + offset.y };
        let mx = if pt1.x + size.x <= self.max.x {
            pt1.x + size.x
        } else {
            self.max.x
        };
        let my = if pt1.y + size.y <= self.max.y {
            pt1.y + size.y
        } else {
            self.max.y
        };
        Bounds { min: pt1, max: Vector2 { x: mx, y: my } }
    }

    /// Returns the point of the box (maximum corner included) closest to the
    /// query point.
    pub fn closest_pt(&self, query: Vector2) -> (r: Vector2)
        ensures
            r.x == if self.min.x >= query.x {
                if self.min.x <= self.max.x {
                    self.min.x
                } else {
                    self.max.x
                }
            } else {
                if query.x <= self.max.x {
                    query.x
                } else {
                    self.max.x
                }
            },
            r.y == if self.min.y >= query.y {
                if self.min.y <= self.max.y {
                    self.min.y
                } else {
                    self.max.y
                }
            } else {
                if query.y <= self.max.y {
                    query.y
                } else {
                    self.max.y
                }
            },
    {
        let cx = if self.min.x >= query.x {
            self.min.x
        } else {
            query.x
        };
        let cy = if self.min.y >= query.y {
            self.min.y
        } else {
            query.y
        };
        Vector2 {
            x: if cx <= self.max.x {
                cx
            } else {
                self.max.x
            },
            y: if cy <= self.max.y {
                cy
            } else {
                self.max.y
            },
        }
    }
}

impl std::ops::Add<Vector2> for Bounds {
    type Output = Bounds;

    fn add(self, rhs: Vector2) -> (r: Bounds) {
        Bounds { min: self.min + rhs, max: self.max + rhs }
    }
}

impl vstd::std_specs::ops::AddSpecImpl<Vector2> for Bounds {
    open spec fn obeys_add_spec() -> bool {
        true
    }

    open spec fn add_req(self, rhs: Vector2) -> bool {
        &&& i32::MIN <= self.min.x + rhs.x <= i32::MAX
        &&& i32::MIN <= self.min.y + rhs.y <= i32::MAX
        &&& i32::MIN <= self.max.x + rhs.x <= i32::MAX
        &&& i32::MIN <= self.max.y + rhs.y <= i32::MAX
    }

    open spec fn add_spec(self, rhs: Vector2) -> Bounds {
        Bounds {
            min: Vector2 { x: (self.min.x + rhs.x) as i32, y: (self.min.y + rhs.y) as i32 },
            max: Vector2 { x: (self.max.x + rhs.x) as i32, y: (self.max.y + rhs.y) as i32 },
        }
    }
}

impl std::ops::Sub<Vector2> for Bounds {
    type Output = Bounds;

    fn sub(self, rhs: Vector2) -> (r: Bounds) {
        Bounds { min: self.min - rhs, max: self.max - rhs }
    }
}

impl vstd::std_specs::ops::SubSpecImpl<Vector2> for Bounds {
    open spec fn obeys_sub_spec() -> bool {
        true
    }

    open spec fn sub_req(self, rhs: Vector2) -> bool {
        &&& i32::MIN <= self.min.x - rhs.x <= i32::MAX
        &&& i32::MIN <= self.min.y - rhs.y <= i32::MAX
        &&& i32::MIN <= self.max.x - rhs.x <= i32::MAX
        &&& i32::MIN <= self.max.y - rhs.y <= i32::MAX
    }

    open spec fn sub_spec(self, rhs: Vector2) -> Bounds {
        Bounds {
            min: Vector2 { x: (self.min.x - rhs.x) as i32, y: (self.min.y - rhs.y) as i32 },
            max: Vector2 { x: (self.max.x - rhs.x) as i32, y: (self.max.y - rhs.y) as i32 },
        }
    }
}

} // verus!
