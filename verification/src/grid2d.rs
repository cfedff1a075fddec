//! A dense 2D grid stored as one contiguous vector in row-major order.

use vstd::prelude::*;

use crate::opacity::{Opacity, OpacityMap};
use crate::vector::Point;

verus! {

/// A 2D grid data structure.
///
/// The grid is represented as a contiguous 1D vector with dimensions `width`
/// by `height`; the element at `(x, y)` lives at index `y * width + x`.
#[derive(Clone)]
pub struct Grid2D<T> {
    pub data: Vec<T>,
    pub _width: i32,
    pub _height: i32,
}

impl<T> Grid2D<T> {
    /// The stored width, as an unbounded integer.
    pub open spec fn spec_width(&self) -> int {
        self._width as int
    }

    /// The stored height, as an unbounded integer.
    pub open spec fn spec_height(&self) -> int {
        self._height as int
    }

    /// The grid's shape is consistent: nonnegative dimensions whose product
    /// is the length of the backing vector.
    pub open spec fn wf(&self) -> bool {
        &&& 0 <= self.spec_width() <= 0x8000
        &&& 0 <= self.spec_height() <= 0x8000
        &&& self.data@.len() == self.spec_width() * self.spec_height()
    }

    /// Whether `pt` lies inside the grid's rectangular domain.
    pub open spec fn in_bounds(&self, pt: Point) -> bool {
        0 <= pt.x < self.spec_width() && 0 <= pt.y < self.spec_height()
    }

    /// The row-major index of `pt`.
    pub open spec fn spec_index_of(&self, pt: Point) -> int {
        pt.y * self.spec_width() + pt.x
    }

    /// The value stored at `pt`, or `None` when `pt` is out of bounds (or,
    /// for a malformed grid, when its index is past the backing vector).
    pub open spec fn spec_at(&self, pt: Point) -> Option<T> {
        if self.in_bounds(pt) && self.spec_index_of(pt) < self.data@.len() {
            Some(self.data@[self.spec_index_of(pt)])
        } else {
            None
        }
    }

    /// Returns the rectangular bounds of the grid.
    pub fn rect(&self) -> (r: crate::bounds::Rect)
        ensures
            r.min == (Point { x: 0, y: 0 }),
            r.max.x == self.spec_width(),
            r.max.y == self.spec_height(),
    {
        crate::bounds::Rect {
            min: Point { x: 0, y: 0 },
            max: Point { x: self._width, y: self._height },
        }
    }

    /// Returns the size of the grid.
    pub fn size(&self) -> (r: Point)
        ensures
            r.x == self.spec_width(),
            r.y == self.spec_height(),
    {
        Point { x: self._width, y: self._height }
    }

    /// Returns the width of the grid.
    pub fn width(&self) -> (r: i32)
        ensures
            r == self.spec_width(),
    {
        self._width
    }

    /// Returns the height of the grid.
    pub fn height(&self) -> (r: i32)
        ensures
            r == self.spec_height(),
    {
        self._height
    }

    /// Returns the index into `data` for the element at `pt`, or `None` if
    /// `pt` is out of bounds.
    pub fn index(&self, pt: Point) -> (r: Option<usize>)
        ensures
            r is Some <==> self.in_bounds(pt) && self.spec_index_of(pt) <= usize::MAX,
            r matches Some(i) ==> i == self.spec_index_of(pt),
    {
        if pt.x >= 0 && pt.x < self._width && pt.y >= 0 && pt.y < self._height {
            proof {
                assert(0 <= pt.y as int * self._width as int <= 0x4000_0000_0000_0000)
                    by (nonlinear_arith)
                    requires
                        0 <= pt.y < 0x8000_0000,
                        0 <= self._width < 0x8000_0000,
                ;
            }
            let idx: u64 = (pt.y as u64) * (self._width as u64) + (pt.x as u64);
            if idx <= usize::MAX as u64 {
                Some(idx as usize)
            } else {
                None
            }
        } else {
            None
        }
    }

    /// Returns a reference to the element at `pt`, if it is within bounds.
    pub fn get(&self, pt: Point) -> (r: Option<&T>)
        ensures
            r is Some <==> self.spec_at(pt) is Some,
            r matches Some(v) ==> self.spec_at(pt) == Some(*v),
    {
        let n = self.data.len();
        match self.index(pt) {
            Some(i) => {
                if i < n {
                    Some(&self.data[i])
                } else {
                    None
                }
            },
            None => None,
        }
    }

    /// Writes `value` at `pt`; returns whether `pt` was in bounds and the
    /// write happened.
    pub fn set(&mut self, pt: Point, value: T) -> (r: bool)
        ensures
            r <==> old(self).spec_at(pt) is Some,
            final(self)._width == old(self)._width,
            final(self)._height == old(self)._height,
            r ==> final(self).data@ == old(self).data@.update(
                old(self).spec_index_of(pt),
                value,
            ),
            !r ==> final(self).data@ == old(self).data@,
    {
        let n = self.data.len();
        match self.index(pt) {
            Some(i) => {
                if i < n {
                    self.data[i] = value;
                    true
                } else {
                    false
                }
            },
            None => false,
        }
    }

    /// Creates a grid directly from a row-major vector of `width * height`
    /// elements.
    pub fn from_iter(data: Vec<T>, width: i32, height: i32) -> (r: Grid2D<T>)
        requires
            0 <= width <= 0x8000,
            0 <= height <= 0x8000,
            data@.len() == width * height,
        ensures
            r.wf(),
            r.spec_width() == width,
            r.spec_height() == height,
            r.data@ == data@,
    {
        Grid2D { data, _width: width, _height: height }
    }
}

impl<T: Copy> Grid2D<T> {
    /// Creates a new grid of the specified dimensions, filled with `fill`.
    pub fn new(width: i32, height: i32, fill: T) -> (r: Grid2D<T>)
        requires
            0 <= width <= 0x8000,
            0 <= height <= 0x8000,
        ensures
            r.wf(),
            r.spec_width() == width,
            r.spec_height() == height,
            forall|i: int| 0 <= i < r.data@.len() ==> r.data@[i] == fill,
    {
        proof {
            assert(0 <= width * height <= 0x4000_0000) by (nonlinear_arith)
                requires
                    0 <= width <= 0x8000,
                    0 <= height <= 0x8000,
            ;
        }
        let n: usize = (width as usize) * (height as usize);
        let mut data: Vec<T> = Vec::new();
        let mut i: usize = 0;
        while i < n
            invariant
                i <= n,
                data@.len() == i,
                forall|j: int| 0 <= j < i ==> data@[j] == fill,
            decreases n - i,
        {
            data.push(fill);
            i = i + 1;
        }
        Grid2D { data, _width: width, _height: height }
    }


    /// Applies a function to each element of the grid and returns a new
    /// grid of the results, with the same dimensions.
    #[verifier::loop_isolation(false)]
    pub fn map<P, F: FnMut(&T) -> P>(&self, func: F) -> (r: Grid2D<P>)
        requires
            forall|cb: F, t: &T| #[trigger] call_requires(cb, (t,)),
        ensures
            r._width == self._width,
            r._height == self._height,
            r.data@.len() == self.data@.len(),
    {
        let mut func = func;
        let n = self.data.len();
        let mut data: Vec<P> = Vec::new();
        let mut i: usize = 0;
        while i < n
            invariant
                data@.len() == i,
                i <= n,
            decreases n - i,
        {
            data.push(func(&self.data[i]));
            i = i + 1;
        }
        Grid2D { data, _width: self._width, _height: self._height }
    }

    /// Maps the given function over the coordinates of the grid and returns
    /// a new grid holding the function's value at each coordinate.
    #[verifier::loop_isolation(false)]
    pub fn map_coords<P, F: FnMut(Point) -> P>(&self, f: F) -> (r: Grid2D<P>)
        requires
            self.wf(),
            forall|cb: F, p: Point| #[trigger] call_requires(cb, (p,)),
        ensures
            r._width == self._width,
            r._height == self._height,
            r.data@.len() == self.data@.len(),
    {
        let mut f = f;
        let mut data: Vec<P> = Vec::new();
        let mut y: i32 = 0;
        while y < self._height
            invariant
                0 <= y <= self.spec_height(),
                data@.len() == y * self.spec_width(),
            decreases self._height - y,
        {
            let mut x: i32 = 0;
            while x < self._width
                invariant
                    0 <= x <= self.spec_width(),
                    0 <= y < self.spec_height(),
                    data@.len() == y * self.spec_width() + x,
                decreases self._width - x,
            {
                data.push(f(Point { x, y }));
                x = x + 1;
            }
            proof {
                assert(y * self.spec_width() + self.spec_width() == (y + 1) * self.spec_width())
                    by (nonlinear_arith);
            }
            y = y + 1;
        }
        proof {
            assert(self.spec_height() * self.spec_width() == self.spec_width()
                * self.spec_height()) by (nonlinear_arith);
        }
        Grid2D { data, _width: self._width, _height: self._height }
    }

    /// Creates a new grid with the same dimensions as another grid, filled
    /// with `fill`.
    pub fn like<P: Copy>(other: &Grid2D<P>, fill: T) -> (r: Grid2D<T>)
        requires
            other.wf(),
        ensures
            r.wf(),
            r.spec_width() == other.spec_width(),
            r.spec_height() == other.spec_height(),
            forall|i: int| 0 <= i < r.data@.len() ==> r.data@[i] == fill,
    {
        Grid2D::new(other._width, other._height, fill)
    }

    /// Resizes the grid to the given dimensions, refilled with `fill`.
    pub fn resize(&mut self, new_width: i32, new_height: i32, fill: T)
        requires
            0 <= new_width <= 0x8000,
            0 <= new_height <= 0x8000,
        ensures
            final(self).wf(),
            final(self).spec_width() == new_width,
            final(self).spec_height() == new_height,
            forall|i: int| 0 <= i < final(self).data@.len() ==> final(self).data@[i] == fill,
    {
        let fresh = Grid2D::new(new_width, new_height, fill);
        *self = fresh;
    }

    /// Resets all values in the grid to `fill`, keeping its dimensions.
    pub fn clear(&mut self, fill: T)
        ensures
            final(self)._width == old(self)._width,
            final(self)._height == old(self)._height,
            final(self).data@.len() == old(self).data@.len(),
            forall|i: int| 0 <= i < final(self).data@.len() ==> final(self).data@[i] == fill,
    {
        let n = self.data.len();
        let mut i: usize = 0;
        while i < n
            invariant
                i <= n,
                self.data@.len() == n,
                self._width == old(self)._width,
                self._height == old(self)._height,
                forall|j: int| 0 <= j < i ==> self.data@[j] == fill,
            decreases n - i,
        {
            self.data[i] = fill;
            i = i + 1;
        }
    }

    /// Creates a grid filled with `fill` except at the listed points, which
    /// hold `value`. Out-of-bounds points are ignored.
    pub fn from_sparse_points(
        width: i32,
        height: i32,
        fill: T,
        points: Vec<Point>,
        value: T,
    ) -> (r: Grid2D<T>)
        requires
            0 <= width <= 0x8000,
            0 <= height <= 0x8000,
        ensures
            r.wf(),
            r.spec_width() == width,
            r.spec_height() == height,
            forall|p: Point|
                r.in_bounds(p) ==> #[trigger] r.spec_at(p) == Some(
                    if points@.contains(p) {
                        value
                    } else {
                        fill
                    },
                ),
    {
        let mut grid = Grid2D::new(width, height, fill);
        proof {
            grid.lemma_unique_indexing();
            assert(forall|p: Point|
                grid.in_bounds(p) ==> #[trigger] grid.spec_at(p) == Some(
                    if points@.take(0).contains(p) {
                        value
                    } else {
                        fill
                    },
                ));
        }
        let mut k: usize = 0;
        while k < points.len()
            invariant
                k <= points@.len(),
                grid.wf(),
                grid.spec_width() == width,
                grid.spec_height() == height,
                forall|p: Point|
                    grid.in_bounds(p) ==> #[trigger] grid.spec_at(p) == Some(
                        if points@.take(k as int).contains(p) {
                            value
                        } else {
                            fill
                        },
                    ),
            decreases points@.len() - k,
        {
            let ghost before = grid;
            let pt = points[k];
            grid.set(pt, value);
            proof {
                before.lemma_unique_indexing();
                grid.lemma_unique_indexing();
                assert(points@.take(k + 1) == points@.take(k as int).push(pt));
                assert forall|p: Point| grid.in_bounds(p) implies #[trigger] grid.spec_at(p)
                    == Some(
                    if points@.take(k + 1).contains(p) {
                        value
                    } else {
                        fill
                    },
                ) by {
                    if p == pt {
                        assert(points@.take(k + 1).contains(p)) by {
                            assert(points@.take(k + 1)[k as int] == pt);
                        }
                    } else {
                        assert(grid.spec_at(p) == before.spec_at(p));
                        assert(points@.take(k + 1).contains(p) <==> points@.take(
                            k as int,
                        ).contains(p)) by {
                            if points@.take(k + 1).contains(p) {
                                let i = choose|i: int|
                                    0 <= i < points@.take(k + 1).len() && #[trigger] points@.take(
                                        k + 1,
                                    )[i] == p;
                                assert(i < k + 1 && i != k);
                                assert(points@.take(k as int)[i] == p);
                            } else if points@.take(k as int).contains(p) {
                                let i = choose|i: int|
                                    0 <= i < points@.take(k as int).len() && #[trigger] points@.take(
                                        k as int,
                                    )[i] == p;
                                assert(points@.take(k + 1)[i] == p);
                            }
                        }
                    }
                }
            }
            k = k + 1;
        }
        proof {
            assert(points@.take(points@.len() as int) == points@);
        }
        grid
    }

    /// Distinct in-bounds points of a well-formed grid have distinct
    /// row-major indices.
    pub proof fn lemma_unique_indexing(self)
        requires
            self.wf(),
        ensures
            forall|p: Point, q: Point|
                self.in_bounds(p) && self.in_bounds(q) && p != q ==> #[trigger] self.spec_index_of(
                    p,
                ) != #[trigger] self.spec_index_of(q),
            forall|p: Point|
                self.in_bounds(p) ==> 0 <= #[trigger] self.spec_index_of(p) < self.data@.len(),
    {
        assert forall|p: Point, q: Point|
            self.in_bounds(p) && self.in_bounds(q) && p != q implies #[trigger] self.spec_index_of(
            p,
        ) != #[trigger] self.spec_index_of(q) by {
            let w = self.spec_width();
            assert(p.y * w + p.x != q.y * w + q.x) by (nonlinear_arith)
                requires
                    0 <= p.x < w,
                    0 <= q.x < w,
                    0 <= p.y,
                    0 <= q.y,
                    p.x != q.x || p.y != q.y,
            ;
        }
        assert forall|p: Point| self.in_bounds(p) implies 0 <= #[trigger] self.spec_index_of(p)
            < self.data@.len() by {
            let w = self.spec_width();
            let h = self.spec_height();
            assert(0 <= p.y * w + p.x < w * h) by (nonlinear_arith)
                requires
                    0 <= p.x < w,
                    0 <= p.y < h,
            ;
        }
    }
}

impl OpacityMap for Grid2D<Opacity> {
    open spec fn opacity_at(&self, p: Point) -> Option<Opacity> {
        self.spec_at(p)
    }

    fn get(&self, p: Point) -> (r: Option<Opacity>) {
        match Grid2D::get(self, p) {
            Some(v) => Some(*v),
            None => None,
        }
    }
}

} // verus!
