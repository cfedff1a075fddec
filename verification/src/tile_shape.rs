//! Tile boundary geometry for the shadowcasting scan.
//!
//! A tile-shape policy decides, for the tile at canonical octant coordinates
//! `(x, y)` (`x` the distance from the origin, `y` the lateral offset), which
//! slopes bound it: the upper boundary, the lower boundary, and the trailing
//! edge used when an opaque run ends. Three policies exist: full square
//! footprints, diamonds inscribed in the square, and squares whose corners
//! are beveled next to clear neighbors.

use vstd::prelude::*;
use vstd::std_specs::ops::{AddSpec, MulSpec};

use crate::matrix::Mat2;
use crate::octant::is_octant_matrix;
use crate::opacity::{Opacity, OpacityMap};
use crate::slope::{slope_new_spec, Slope};
use crate::vector::{coord_in_range, Point, Vector2};

verus! {

/// The largest scan radius the engine accepts: the bound under which every
/// intermediate slope product of the all-`i32` scan arithmetic stays exact.
pub open spec fn max_range() -> int {
    16000
}

/// Conditions under which canonical octant coordinates can be mapped to
/// world coordinates without leaving `i32`: a bounded origin and one of the
/// eight octant matrices.
pub open spec fn frame_wf(o: Point, t: Mat2) -> bool {
    &&& coord_in_range(o.x as int)
    &&& coord_in_range(o.y as int)
    &&& is_octant_matrix(t)
}

/// The world point for canonical coordinates `(x, y)`: the origin plus the
/// octant transform applied to the vector `(y, x)`.
pub open spec fn world_point(o: Point, t: Mat2, x: int, y: int) -> Point {
    Point {
        x: (o.x + t.col1.x * y + t.col2.x * x) as i32,
        y: (o.y + t.col1.y * y + t.col2.y * x) as i32,
    }
}

/// Whether the map holds a wall (strictly `Opaque`) at the world point of
/// canonical `(x, y)`; tiles outside the map's domain do not count as walls
/// here, unlike in the scan's own occlusion test.
pub open spec fn wall_at<M: OpacityMap>(m: M, o: Point, t: Mat2, x: int, y: int) -> bool {
    m.opacity_at(world_point(o, t, x, y)) == Some(Opacity::Opaque)
}

/// The three tile-boundary policies.
#[derive(Debug, Clone, Copy, PartialEq, Eq, Structural)]
pub enum TileGeometry {
    /// Tiles occlude with their full square footprint (conservative corners).
    Square,
    /// Tiles occlude with the diamond inscribed in the square (generous corners).
    Diamond,
    /// Square tiles whose corners are beveled beside clear neighbors.
    Beveled,
}

/// The upper angular boundary of the tile at `(x, y)`.
pub open spec fn tile_high_spec<M: OpacityMap>(
    g: TileGeometry,
    m: M,
    o: Point,
    t: Mat2,
    x: int,
    y: int,
) -> Slope {
    match g {
        TileGeometry::Square => slope_new_spec(2 * y + 1, 2 * x - 1),
        TileGeometry::Diamond => slope_new_spec(2 * y + 1, 2 * x),
        TileGeometry::Beveled => if wall_at(m, o, t, x, y) && !wall_at(m, o, t, x, y + 1) {
            slope_new_spec(2 * y + 1, 2 * x)
        } else {
            slope_new_spec(2 * y + 1, 2 * x - 1)
        },
    }
}

/// The lower angular boundary of the tile at `(x, y)`.
pub open spec fn tile_low_spec<M: OpacityMap>(
    g: TileGeometry,
    m: M,
    o: Point,
    t: Mat2,
    x: int,
    y: int,
) -> Slope {
    match g {
        TileGeometry::Square => slope_new_spec(2 * y - 1, 2 * x + 1),
        TileGeometry::Diamond => slope_new_spec(2 * y - 1, 2 * x),
        TileGeometry::Beveled => if wall_at(m, o, t, x, y) && !wall_at(m, o, t, x + 1, y) {
            slope_new_spec(2 * y - 1, 2 * x)
        } else {
            slope_new_spec(2 * y - 1, 2 * x + 1)
        },
    }
}

/// The trailing lower edge of the tile at `(x, y)`, used to narrow the wedge
/// when a run of opaque tiles ends.
pub open spec fn prev_low_spec<M: OpacityMap>(
    g: TileGeometry,
    m: M,
    o: Point,
    t: Mat2,
    x: int,
    y: int,
) -> Slope {
    match g {
        TileGeometry::Square => slope_new_spec(2 * y + 1, 2 * x + 1),
        TileGeometry::Diamond => slope_new_spec(2 * y + 1, 2 * x),
        TileGeometry::Beveled => if !wall_at(m, o, t, x + 1, y) {
            slope_new_spec(2 * y, 2 * x)
        } else {
            slope_new_spec(2 * y, 2 * x + 1)
        },
    }
}

/// Computes the world point for canonical `(x, y)` and proves it matches
/// [`world_point`] with no truncation.
pub(crate) fn to_world(o: Point, t: Mat2, x: i32, y: i32) -> (r: Point)
    requires
        frame_wf(o, t),
        0 <= x <= max_range() + 1,
        0 <= y <= max_range() + 1,
    ensures
        r == world_point(o, t, x as int, y as int),
        r.x == o.x + t.col1.x * y + t.col2.x * x,
        r.y == o.y + t.col1.y * y + t.col2.y * x,
{
    let v = Vector2::new(y, x);
    proof {
        crate::octant::lemma_octant_entry_bounds(t);
        crate::numeric::lemma_mul_bounds(t.col1.x as int, v.x as int, 0x4000);
        crate::numeric::lemma_mul_bounds(t.col2.x as int, v.y as int, 0x4000);
        crate::numeric::lemma_mul_bounds(t.col1.y as int, v.x as int, 0x4000);
        crate::numeric::lemma_mul_bounds(t.col2.y as int, v.y as int, 0x4000);
        assert(t.mul_req(v) && o.add_spec(t.mul_spec(v)) == world_point(o, t, x as int, y as int)
            && o.add_req(t.mul_spec(v)));
    }
    o + t * v
}

/// Whether the map holds a wall at canonical `(x, y)`.
fn is_wall<M: OpacityMap>(map: &M, o: Point, t: Mat2, x: i32, y: i32) -> (r: bool)
    requires
        frame_wf(o, t),
        0 <= x <= max_range() + 1,
        0 <= y <= max_range() + 1,
    ensures
        r == wall_at(*map, o, t, x as int, y as int),
{
    let p = to_world(o, t, x, y);
    match map.get(p) {
        Some(Opacity::Opaque) => true,
        _ => false,
    }
}

/// Computes the upper boundary slope of the tile at `(x, y)` under policy `g`.
pub(crate) fn tile_high<M: OpacityMap>(
    g: TileGeometry,
    map: &M,
    o: Point,
    t: Mat2,
    x: i32,
    y: i32,
) -> (r: Slope)
    requires
        frame_wf(o, t),
        1 <= x <= max_range(),
        0 <= y <= x,
    ensures
        r == tile_high_spec(g, *map, o, t, x as int, y as int),
        0 <= r.rise <= 2 * (x as int) + 1,
        0 < r.run <= 2 * (x as int) + 1,
{
    match g {
        TileGeometry::Square => Slope::new(2 * y + 1, 2 * x - 1),
        TileGeometry::Diamond => Slope::new(2 * y + 1, 2 * x),
        TileGeometry::Beveled => {
            if is_wall(map, o, t, x, y) && !is_wall(map, o, t, x, y + 1) {
                Slope::new(2 * y + 1, 2 * x)
            } else {
                Slope::new(2 * y + 1, 2 * x - 1)
            }
        },
    }
}

/// Computes the lower boundary slope of the tile at `(x, y)` under policy `g`.
pub(crate) fn tile_low<M: OpacityMap>(
    g: TileGeometry,
    map: &M,
    o: Point,
    t: Mat2,
    x: i32,
    y: i32,
) -> (r: Slope)
    requires
        frame_wf(o, t),
        1 <= x <= max_range(),
        0 <= y <= x,
    ensures
        r == tile_low_spec(g, *map, o, t, x as int, y as int),
        -(2 * (x as int) + 1) <= r.rise <= 2 * (x as int) + 1,
        0 < r.run <= 2 * (x as int) + 1,
{
    match g {
        TileGeometry::Square => Slope::new(2 * y - 1, 2 * x + 1),
        TileGeometry::Diamond => Slope::new(2 * y - 1, 2 * x),
        TileGeometry::Beveled => {
            if is_wall(map, o, t, x, y) && !is_wall(map, o, t, x + 1, y) {
                Slope::new(2 * y - 1, 2 * x)
            } else {
                Slope::new(2 * y - 1, 2 * x + 1)
            }
        },
    }
}

/// Computes the trailing lower edge of the tile at `(x, y)` under policy `g`.
pub(crate) fn prev_low<M: OpacityMap>(
    g: TileGeometry,
    map: &M,
    o: Point,
    t: Mat2,
    x: i32,
    y: i32,
) -> (r: Slope)
    requires
        frame_wf(o, t),
        1 <= x <= max_range(),
        0 <= y <= x,
    ensures
        r == prev_low_spec(g, *map, o, t, x as int, y as int),
        0 <= r.rise <= 2 * (x as int) + 1,
        0 < r.run <= 2 * (x as int) + 1,
{
    match g {
        TileGeometry::Square => Slope::new(2 * y + 1, 2 * x + 1),
        TileGeometry::Diamond => Slope::new(2 * y + 1, 2 * x),
        TileGeometry::Beveled => {
            if !is_wall(map, o, t, x + 1, y) {
                Slope::new(2 * y, 2 * x)
            } else {
                Slope::new(2 * y, 2 * x + 1)
            }
        },
    }
}

/// Trait that defines how tile shapes are interpreted for field-of-view
/// calculations. Each implementation is one boundary policy; its spec
/// functions are the mathematical boundaries its methods return.
pub trait TileShape {
    /// Conditions under which the shape's methods may be called.
    spec fn shape_wf(&self) -> bool;

    /// The upper boundary of the tile at `(x, y)`.
    spec fn slope_high_spec(&self, x: int, y: int) -> Slope;

    /// The lower boundary of the tile at `(x, y)`.
    spec fn slope_low_spec(&self, x: int, y: int) -> Slope;

    /// The trailing lower edge of the tile at `(x, y)`.
    spec fn prev_slope_low_spec(&self, x: int, y: int) -> Slope;

    /// Calculate the high slope value for a tile at `(x, y)`.
    fn tile_slope_high(&self, x: i32, y: i32) -> (r: Slope)
        requires
            self.shape_wf(),
            1 <= x <= max_range(),
            0 <= y <= x,
        ensures
            r == self.slope_high_spec(x as int, y as int),
    ;

    /// Calculate the low slope value for a tile at `(x, y)`.
    fn tile_slope_low(&self, x: i32, y: i32) -> (r: Slope)
        requires
            self.shape_wf(),
            1 <= x <= max_range(),
            0 <= y <= x,
        ensures
            r == self.slope_low_spec(x as int, y as int),
    ;

    /// Calculate the previous tile's low slope for transitions.
    fn prev_tile_slope_low(&self, x: i32, y: i32) -> (r: Slope)
        requires
            self.shape_wf(),
            1 <= x <= max_range(),
            0 <= y <= x,
        ensures
            r == self.prev_slope_low_spec(x as int, y as int),
    ;
}

/// Standard square tile shape used in basic shadowcasting.
pub struct SquareTileShape;

impl TileShape for SquareTileShape {
    open spec fn shape_wf(&self) -> bool {
        true
    }

    open spec fn slope_high_spec(&self, x: int, y: int) -> Slope {
        slope_new_spec(2 * y + 1, 2 * x - 1)
    }

    open spec fn slope_low_spec(&self, x: int, y: int) -> Slope {
        slope_new_spec(2 * y - 1, 2 * x + 1)
    }

    open spec fn prev_slope_low_spec(&self, x: int, y: int) -> Slope {
        slope_new_spec(2 * y + 1, 2 * x + 1)
    }

    fn tile_slope_high(&self, x: i32, y: i32) -> (r: Slope) {
        Slope::new(2 * y + 1, 2 * x - 1)
    }

    fn tile_slope_low(&self, x: i32, y: i32) -> (r: Slope) {
        Slope::new(2 * y - 1, 2 * x + 1)
    }

    fn prev_tile_slope_low(&self, x: i32, y: i32) -> (r: Slope) {
        Slope::new(2 * y + 1, 2 * x + 1)
    }
}

/// Diamond-shaped tiles for a smoother field of view.
pub struct DiamondTileShape;

impl TileShape for DiamondTileShape {
    open spec fn shape_wf(&self) -> bool {
        true
    }

    open spec fn slope_high_spec(&self, x: int, y: int) -> Slope {
        slope_new_spec(2 * y + 1, 2 * x)
    }

    open spec fn slope_low_spec(&self, x: int, y: int) -> Slope {
        slope_new_spec(2 * y - 1, 2 * x)
    }

    open spec fn prev_slope_low_spec(&self, x: int, y: int) -> Slope {
        slope_new_spec(2 * y + 1, 2 * x)
    }

    fn tile_slope_high(&self, x: i32, y: i32) -> (r: Slope) {
        Slope::new(y * 2 + 1, x * 2)
    }

    fn tile_slope_low(&self, x: i32, y: i32) -> (r: Slope) {
        Slope::new(y * 2 - 1, x * 2)
    }

    fn prev_tile_slope_low(&self, x: i32, y: i32) -> (r: Slope) {
        Slope::new(y * 2 + 1, x * 2)
    }
}

/// Tile shape with corners beveled beside clear neighbors, which produces
/// natural-looking shadows around wall corners. Needs read access to the map
/// (through the active octant transform and origin) to resolve neighbor
/// opacity.
pub struct AdamMilazzoTileShape<'a, M: OpacityMap> {
    pub map: &'a M,
    pub origin: Point,
    pub transform: Mat2,
}

impl<'a, M: OpacityMap> AdamMilazzoTileShape<'a, M> {
    /// Creates the beveled tile-shape policy for one octant's scan frame.
    pub fn new(map: &'a M, origin: Point, transform: Mat2) -> (r: Self)
        ensures
            r.origin == origin,
            r.transform == transform,
            *r.map == *map,
    {
        Self { map, origin, transform }
    }
}

impl<'a, M: OpacityMap> TileShape for AdamMilazzoTileShape<'a, M> {
    open spec fn shape_wf(&self) -> bool {
        frame_wf(self.origin, self.transform)
    }

    open spec fn slope_high_spec(&self, x: int, y: int) -> Slope {
        tile_high_spec(TileGeometry::Beveled, *self.map, self.origin, self.transform, x, y)
    }

    open spec fn slope_low_spec(&self, x: int, y: int) -> Slope {
        tile_low_spec(TileGeometry::Beveled, *self.map, self.origin, self.transform, x, y)
    }

    open spec fn prev_slope_low_spec(&self, x: int, y: int) -> Slope {
        prev_low_spec(TileGeometry::Beveled, *self.map, self.origin, self.transform, x, y)
    }

    fn tile_slope_high(&self, x: i32, y: i32) -> (r: Slope) {
        tile_high(TileGeometry::Beveled, self.map, self.origin, self.transform, x, y)
    }

    fn tile_slope_low(&self, x: i32, y: i32) -> (r: Slope) {
        tile_low(TileGeometry::Beveled, self.map, self.origin, self.transform, x, y)
    }

    fn prev_tile_slope_low(&self, x: i32, y: i32) -> (r: Slope) {
        prev_low(TileGeometry::Beveled, self.map, self.origin, self.transform, x, y)
    }
}

} // verus!
