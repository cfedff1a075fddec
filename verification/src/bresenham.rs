//! Bresenham line rasterization between two integer points.

use vstd::prelude::*;

use crate::vector::Point;

verus! {

/// A Bresenham line walker over the points on a line between two `Point`s.
///
/// Each call of [`Bresenham::next`] yields the current point and advances
/// the classic all-quadrant error accumulator; after the end point has been
/// yielded the walker stays exhausted.
pub struct Bresenham {
    /// The absolute difference between the points in x (nonnegative) and the
    /// negated absolute difference in y (nonpositive).
    pub delta: Point,
    /// The directions to step in (either +1 or -1 on each axis), or `None`
    /// once iteration has concluded.
    pub step: Option<Point>,
    /// The current error value for the line.
    pub error: i32,
    /// The current point in the line iteration.
    pub current: Point,
    /// The final point in the line.
    pub end: Point,
}

impl Bresenham {
    /// Coordinates the walker accepts; keeps the error accumulator inside
    /// `i32` through every step.
    pub open spec fn line_coord(c: int) -> bool {
        -0x0800_0000 <= c && c <= 0x0800_0000
    }

    /// The walker's state invariant: the error accumulator stays within
    /// twice the deltas, and the remaining distance to the end point, seen
    /// along the step directions, is nonnegative, bounded by the deltas, and
    /// tied to the error by the line equation.
    pub open spec fn wf(self) -> bool {
        match self.step {
            None => true,
            Some(step) => {
                let rx = step.x * (self.end.x - self.current.x);
                let ry = step.y * (self.end.y - self.current.y);
                &&& (step.x == 1 || step.x == -1)
                &&& (step.y == 1 || step.y == -1)
                &&& 0 <= self.delta.x <= 0x1000_0000
                &&& -0x1000_0000 <= self.delta.y <= 0
                &&& Self::line_coord(self.end.x as int)
                &&& Self::line_coord(self.end.y as int)
                &&& 0 <= rx <= self.delta.x
                &&& 0 <= ry <= -self.delta.y
                &&& 2 * self.delta.y <= self.error <= 2 * self.delta.x
                &&& self.error == self.delta.x + self.delta.y - rx * self.delta.y - ry
                    * self.delta.x
            },
        }
    }

    /// Creates a new walker over the points on a line from `pt0` to `pt1`.
    pub fn new(pt0: Point, pt1: Point) -> (r: Bresenham)
        requires
            Self::line_coord(pt0.x as int),
            Self::line_coord(pt0.y as int),
            Self::line_coord(pt1.x as int),
            Self::line_coord(pt1.y as int),
        ensures
            r.wf(),
            r.current == pt0,
            r.end == pt1,
            r.step is Some,
    {
        let dx = if pt1.x >= pt0.x {
            pt1.x - pt0.x
        } else {
            pt0.x - pt1.x
        };
        let dy = if pt1.y >= pt0.y {
            pt1.y - pt0.y
        } else {
            pt0.y - pt1.y
        };
        let delta = Point { x: dx, y: -dy };
        let step = Point {
            x: if pt0.x < pt1.x {
                1
            } else {
                -1
            },
            y: if pt0.y < pt1.y {
                1
            } else {
                -1
            },
        };
        let r = Bresenham {
            delta,
            step: Some(step),
            error: delta.x + delta.y,
            current: pt0,
            end: pt1,
        };
        proof {
            let rx = step.x as int * (pt1.x - pt0.x);
            let ry = step.y as int * (pt1.y - pt0.y);
            assert(rx == delta.x && ry == -delta.y) by (nonlinear_arith)
                requires
                    step.x == (if pt0.x < pt1.x {
                        1int
                    } else {
                        -1int
                    }),
                    step.y == (if pt0.y < pt1.y {
                        1int
                    } else {
                        -1int
                    }),
                    delta.x == (if pt1.x >= pt0.x {
                        pt1.x - pt0.x
                    } else {
                        pt0.x - pt1.x
                    }),
                    delta.y == 0 - (if pt1.y >= pt0.y {
                        pt1.y - pt0.y
                    } else {
                        pt0.y - pt1.y
                    }),
                    rx == step.x * (pt1.x - pt0.x),
                    ry == step.y * (pt1.y - pt0.y),
            ;
            assert(r.error as int == delta.x + delta.y - rx * delta.y - ry * delta.x)
                by (nonlinear_arith)
                requires
                    rx == delta.x as int,
                    ry == 0 - delta.y as int,
                    r.error == delta.x + delta.y,
            ;
        }
        r
    }

    /// Returns the next point on the line, or `None` if the end point has
    /// been yielded.
    ///
    /// Each yielded point is the walker's current position; on the end point
    /// the walker marks itself exhausted, otherwise it advances one step of
    /// the classic integer error iteration.
    pub fn next(&mut self) -> (r: Option<Point>)
        requires
            old(self).wf(),
        ensures
            final(self).wf(),
            old(self).step is None ==> r is None && *final(self) == *old(self),
            old(self).step is Some && old(self).current == old(self).end ==> r == Some(
                old(self).current,
            ) && final(self).step is None && final(self).current == old(self).current,
            old(self).step is Some && old(self).current != old(self).end ==> {
                let e2 = 2 * old(self).error;
                &&& r == Some(old(self).current)
                &&& final(self).step == old(self).step
                &&& final(self).end == old(self).end
                &&& final(self).delta == old(self).delta
                &&& final(self).current.x == (if e2 >= old(self).delta.y {
                    old(self).current.x + old(self).step.unwrap().x
                } else {
                    old(self).current.x as int
                })
                &&& final(self).current.y == (if e2 <= old(self).delta.x {
                    old(self).current.y + old(self).step.unwrap().y
                } else {
                    old(self).current.y as int
                })
                &&& final(self).error == old(self).error + (if e2 >= old(self).delta.y {
                    old(self).delta.y as int
                } else {
                    0
                }) + (if e2 <= old(self).delta.x {
                    old(self).delta.x as int
                } else {
                    0
                })
            },
    {
        let step = match self.step {
            Some(s) => s,
            None => {
                return None;
            },
        };
        let point = self.current;
        if point.x == self.end.x && point.y == self.end.y {
            self.step = None;
            return Some(point);
        }
        let ghost rx = step.x as int * (self.end.x - self.current.x);
        let ghost ry = step.y as int * (self.end.y - self.current.y);
        let ghost dx = self.delta.x as int;
        let ghost dy = self.delta.y as int;
        let ghost e = self.error as int;
        let ghost cur_x = self.current.x as int;
        let ghost cur_y = self.current.y as int;
        let ghost end_x = self.end.x as int;
        let ghost end_y = self.end.y as int;
        proof {
            assert(rx > 0 || ry > 0) by (nonlinear_arith)
                requires
                    step.x == 1 || step.x == -1,
                    step.y == 1 || step.y == -1,
                    rx == step.x * (self.end.x - self.current.x),
                    ry == step.y * (self.end.y - self.current.y),
                    0 <= rx,
                    0 <= ry,
                    self.current != self.end,
            ;
            // An x-step is only taken while x distance remains, a y-step only
            // while y distance remains.
            assert(2 * e >= dy && rx == 0 ==> false) by (nonlinear_arith)
                requires
                    e == dx + dy - rx * dy - ry * dx,
                    0 <= rx <= dx,
                    0 <= ry <= -dy,
                    rx > 0 || ry > 0,
                    0 <= dx,
                    dy <= 0,
            ;
            assert(2 * e <= dx && ry == 0 ==> false) by (nonlinear_arith)
                requires
                    e == dx + dy - rx * dy - ry * dx,
                    0 <= rx <= dx,
                    0 <= ry <= -dy,
                    rx > 0 || ry > 0,
                    0 <= dx,
                    dy <= 0,
            ;
            // The error stays within twice the deltas, the line equation is
            // maintained by either kind of step, and the walker never leaves
            // the bounding box of the endpoints.
            assert((end_x - cur_x == rx || end_x - cur_x == -rx) && (end_y - cur_y == ry || end_y
                - cur_y == -ry)) by (nonlinear_arith)
                requires
                    step.x == 1 || step.x == -1,
                    step.y == 1 || step.y == -1,
                    rx == step.x * (end_x - cur_x),
                    ry == step.y * (end_y - cur_y),
            ;
            assert({
                &&& (2 * e >= dy && 2 * e <= dx ==> 2 * dy <= e + dy + dx <= 2 * dx && e + dy + dx
                    == dx + dy - (rx - 1) * dy - (ry - 1) * dx)
                &&& (2 * e >= dy && !(2 * e <= dx) ==> 2 * dy <= e + dy <= 2 * dx && e + dy == dx
                    + dy - (rx - 1) * dy - ry * dx)
                &&& (!(2 * e >= dy) && 2 * e <= dx ==> 2 * dy <= e + dx <= 2 * dx && e + dx == dx
                    + dy - rx * dy - (ry - 1) * dx)
                &&& (2 * e >= dy || 2 * e <= dx)
            }) by (nonlinear_arith)
                requires
                    e == dx + dy - rx * dy - ry * dx,
                    0 <= rx <= dx,
                    0 <= ry <= -dy,
                    0 <= dx,
                    dy <= 0,
                    2 * dy <= e <= 2 * dx,
            ;
        }
        let e2 = 2 * self.error;
        if e2 >= self.delta.y {
            self.error = self.error + self.delta.y;
            self.current.x = self.current.x + step.x;
        }
        if e2 <= self.delta.x {
            self.error = self.error + self.delta.x;
            self.current.y = self.current.y + step.y;
        }
        proof {
            let rx2 = step.x as int * (self.end.x - self.current.x);
            let ry2 = step.y as int * (self.end.y - self.current.y);
            assert((self.current.x == cur_x + step.x ==> rx2 == rx - 1) && (self.current.x == cur_x
                ==> rx2 == rx) && (self.current.y == cur_y + step.y ==> ry2 == ry - 1) && (
            self.current.y == cur_y ==> ry2 == ry)) by (nonlinear_arith)
                requires
                    step.x == 1 || step.x == -1,
                    step.y == 1 || step.y == -1,
                    rx == step.x * (end_x - cur_x),
                    ry == step.y * (end_y - cur_y),
                    rx2 == step.x * (self.end.x - self.current.x),
                    ry2 == step.y * (self.end.y - self.current.y),
                    end_x == self.end.x,
                    end_y == self.end.y,
            ;
        }
        Some(point)
    }
}

} // verus!
