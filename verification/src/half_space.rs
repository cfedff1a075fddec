//! Axis-aligned half-spaces and orthogonal line segments, the primitives of
//! binary space partitioning.

use vstd::prelude::*;

use crate::bounds::{box_coord, Bounds};
use crate::vector::{Axis2D, Point, Vector2};

verus! {

/// An orthogonal line segment represented by an axis, a start point, and a
/// length.
#[derive(Debug, Clone, Copy, PartialEq, Eq, Structural)]
pub struct OrthoLine {
    pub axis: Axis2D,
    pub start: Point,
    pub length: i32,
}

/// A line's coordinates and length are small enough for its endpoint
/// arithmetic to stay inside `i32`.
pub open spec fn line_in_range(l: OrthoLine) -> bool {
    &&& box_coord(l.start.x as int)
    &&& box_coord(l.start.y as int)
    &&& box_coord(l.length as int)
}

impl OrthoLine {
    /// The last point of the line.
    pub open spec fn spec_end(self) -> Point {
        self.start.spec_with_component(
            self.axis,
            (self.start.spec_component(self.axis) + self.length - 1) as i32,
        )
    }

    /// Whether the line passes through `point`.
    pub open spec fn spec_contains(self, point: Point) -> bool {
        let offset_main = point.spec_component(self.axis) - self.start.spec_component(self.axis);
        let offset_other = point.spec_component(self.axis.spec_opposite())
            - self.start.spec_component(self.axis.spec_opposite());
        offset_other == 0 && 0 <= offset_main < self.length
    }

    /// Returns the end point of the line.
    pub fn end(&self) -> (r: Point)
        requires
            line_in_range(*self),
        ensures
            r == self.spec_end(),
    {
        let mut res = self.start;
        res.set_component(self.axis, self.start.component(self.axis) + self.length - 1);
        res
    }

    /// Checks if the given point is contained in the line.
    pub fn contains(&self, point: Point) -> (r: bool)
        requires
            line_in_range(*self),
            box_coord(point.x as int),
            box_coord(point.y as int),
        ensures
            r == self.spec_contains(point),
    {
        let offset = point - self.start;
        if offset.component(self.axis.opposite()) != 0 {
            return false;
        }
        let t = offset.component(self.axis);
        t >= 0 && t < self.length
    }

    /// Applies the closure `f` to each point in the line, walking from the
    /// start along the axis.
    #[verifier::loop_isolation(false)]
    pub fn for_each<F: FnMut(Point)>(&self, f: F)
        requires
            line_in_range(*self),
            forall|cb: F, p: Point| #[trigger] call_requires(cb, (p,)),
    {
        let mut f = f;
        let mut pt = self.start;
        let mut i: i32 = 0;
        while i < self.length
            invariant
                0 <= i,
                pt.spec_component(self.axis.spec_opposite()) == self.start.spec_component(
                    self.axis.spec_opposite(),
                ),
                pt.spec_component(self.axis) == self.start.spec_component(self.axis) + i,
            decreases self.length - i,
        {
            f(pt);
            pt.set_component(self.axis, pt.component(self.axis) + 1);
            i = i + 1;
        }
    }
}

impl Axis2D {
    /// The other 2D axis, as a mathematical function.
    pub open spec fn spec_opposite(self) -> Axis2D {
        if self is X {
            Axis2D::Y
        } else {
            Axis2D::X
        }
    }
}

/// A half-space bounded by an axis-aligned plane: the points whose
/// coordinate along `axis` is at least `offset` (when `positive`) or
/// strictly below it (when not).
#[derive(Debug, Clone, Copy, PartialEq, Eq, Structural)]
pub struct AxialHalfSpace {
    pub axis: Axis2D,
    pub offset: i32,
    pub positive: bool,
}

impl AxialHalfSpace {
    /// Whether the half-space contains `point`.
    pub open spec fn spec_contains(self, point: Vector2) -> bool {
        if self.positive {
            point.spec_component(self.axis) >= self.offset
        } else {
            point.spec_component(self.axis) < self.offset
        }
    }

    /// Checks if the given point is contained in the half-space.
    pub fn contains(&self, point: Vector2) -> (r: bool)
        ensures
            r == self.spec_contains(point),
    {
        match self.positive {
            true => point.component(self.axis) >= self.offset,
            false => point.component(self.axis) < self.offset,
        }
    }

    /// Checks if the half-space intersects with the given rectangle.
    pub fn intersects_rect(&self, rect: Bounds) -> (r: bool)
        ensures
            r == if self.positive {
                rect.max.spec_component(self.axis) >= self.offset
            } else {
                rect.min.spec_component(self.axis) < self.offset
            },
    {
        match self.positive {
            true => rect.max.component(self.axis) >= self.offset,
            false => rect.min.component(self.axis) < self.offset,
        }
    }

    /// Clips the given rectangle to the half-space; `None` if nothing
    /// remains.
    pub fn clip_rect(&self, rect: Bounds) -> (r: Option<Bounds>)
        ensures
            ({
                let new_min = if self.positive && rect.min.spec_component(self.axis) < self.offset {
                    rect.min.spec_with_component(self.axis, self.offset)
                } else {
                    rect.min
                };
                let new_max = if !self.positive && rect.max.spec_component(self.axis)
                    > self.offset {
                    rect.max.spec_with_component(self.axis, self.offset)
                } else {
                    rect.max
                };
                if new_max.spec_component(self.axis) <= new_min.spec_component(self.axis) {
                    r is None
                } else {
                    r == Some(Bounds { min: new_min, max: new_max })
                }
            }),
    {
        let mut new_min = rect.min;
        let mut new_max = rect.max;
        if self.positive {
            if new_min.component(self.axis) < self.offset {
                new_min.set_component(self.axis, self.offset);
            }
        } else {
            if new_max.component(self.axis) > self.offset {
                new_max.set_component(self.axis, self.offset);
            }
        }
        if new_max.component(self.axis) <= new_min.component(self.axis) {
            None
        } else {
            Some(Bounds { min: new_min, max: new_max })
        }
    }

    /// Returns the opposite half-space.
    pub fn opposite(&self) -> (r: AxialHalfSpace)
        ensures
            r.axis == self.axis,
            r.offset == self.offset,
            r.positive == !self.positive,
    {
        AxialHalfSpace { axis: self.axis, offset: self.offset, positive: !self.positive }
    }

    /// Clips the given orthogonal line to the half-space; `None` if the line
    /// lies entirely outside.
    pub fn clip_line(&self, line: OrthoLine) -> (r: Option<OrthoLine>)
        requires
            line_in_range(line),
            box_coord(self.offset as int),
        ensures
            self.axis != line.axis ==> r == if self.spec_contains(line.start) {
                Some(line)
            } else {
                Option::<OrthoLine>::None
            },
            self.axis == line.axis ==> ({
                let s = line.start.spec_component(line.axis);
                let e = line.spec_end().spec_component(line.axis);
                let ns = if self.positive && s < self.offset {
                    self.offset as int
                } else {
                    s as int
                };
                let ne = if !self.positive && e >= self.offset {
                    self.offset - 1
                } else {
                    e as int
                };
                if ne < ns {
                    r is None
                } else {
                    r matches Some(c) && c.axis == line.axis && c.start
                        == line.start.spec_with_component(line.axis, ns as i32) && c.length == ne
                        - ns + 1
                }
            }),
    {
        if self.axis != line.axis {
            if self.contains(line.start) {
                Some(line)
            } else {
                None
            }
        } else {
            let mut new_start = line.start;
            let mut new_end = line.end();
            if self.positive && new_start.component(self.axis) < self.offset {
                new_start.set_component(self.axis, self.offset);
            }
            if !self.positive && new_end.component(self.axis) >= self.offset {
                new_end.set_component(self.axis, self.offset - 1);
            }
            if new_end.component(self.axis) < new_start.component(self.axis) {
                None
            } else {
                Some(
                    OrthoLine {
                        axis: line.axis,
                        start: new_start,
                        length: new_end.component(self.axis) - new_start.component(self.axis) + 1,
                    },
                )
            }
        }
    }
}

} // verus!
