//! Proved laws of the shadowcasting engine.
//!
//! Each public proof function here states one guarantee of the visible set
//! over the same spec functions the executable entry points are verified
//! against, so the guarantees carry over to every call of
//! [`crate::shadow_cast::field_of_view`] and the `cast_light` family.

use vstd::prelude::*;

use crate::matrix::Mat2;
use crate::octant::{is_octant_matrix, lemma_octant_entry_bounds, lemma_octant_orthonormal,
    spec_octant_transform};
use crate::opacity::OpacityMap;
use crate::shadow_cast::{
    fov_args_wf, in_disc, octants_from, opaque_at, row_start, row_measure, scan_from,
    scan_row_from, spec_visible,
};
use crate::slope::{slope_lt, Slope};
use crate::tile_shape::{frame_wf, max_range, world_point, TileGeometry};
use crate::vector::Point;

verus! {

/// The squared Euclidean distance between two points, over unbounded
/// integers.
pub open spec fn dist2(a: Point, b: Point) -> int {
    (b.x - a.x) * (b.x - a.x) + (b.y - a.y) * (b.y - a.y)
}

/// The world point of canonical `(x, y)` lies at squared distance
/// `x*x + y*y` from the origin: octant transforms preserve the norm, and no
/// coordinate leaves `i32` for in-disc points.
proof fn lemma_world_dist(o: Point, t: Mat2, x: int, y: int, range: int)
    requires
        frame_wf(o, t),
        0 <= range <= max_range(),
        x * x + y * y <= range * range,
    ensures
        dist2(o, world_point(o, t, x, y)) == x * x + y * y,
{
    lemma_octant_entry_bounds(t);
    lemma_octant_orthonormal(t);
    let a = t.col1.x as int;
    let b = t.col1.y as int;
    let c = t.col2.x as int;
    let d = t.col2.y as int;
    assert(-range <= x <= range && -range <= y <= range) by (nonlinear_arith)
        requires
            x * x + y * y <= range * range,
            0 <= range,
    ;
    assert(-range <= a * y <= range && -range <= c * x <= range && -range <= b * y <= range
        && -range <= d * x <= range) by (nonlinear_arith)
        requires
            -1 <= a <= 1,
            -1 <= b <= 1,
            -1 <= c <= 1,
            -1 <= d <= 1,
            -range <= x <= range,
            -range <= y <= range,
    ;
    let p = world_point(o, t, x, y);
    assert(p.x == o.x + a * y + c * x && p.y == o.y + b * y + d * x);
    assert((a * y + c * x) * (a * y + c * x) + (b * y + d * x) * (b * y + d * x) == x * x + y * y)
        by (nonlinear_arith)
        requires
            a * a + b * b == 1,
            c * c + d * d == 1,
            a * c + b * d == 0,
    ;
}

/// Every point the scan visits from row `x` on lies within the scan radius.
proof fn lemma_scan_range_bound<M: OpacityMap>(
    g: TileGeometry,
    m: M,
    o: Point,
    t: Mat2,
    range: int,
    x: int,
    hi: Slope,
    lo: Slope,
)
    requires
        fov_args_wf(o, range, t),
        1 <= x,
    ensures
        forall|p: Point|
            #[trigger] scan_from(g, m, o, t, range, x, hi, lo).contains(p) ==> dist2(o, p)
                <= range * range,
    decreases range + 1 - x, row_measure(x, lo, x) + 1,
{
    if slope_lt(hi, lo) || x > range {
        assert(scan_from(g, m, o, t, range, x, hi, lo) =~= Set::<Point>::empty());
    } else {
        lemma_scan_row_range_bound(g, m, o, t, range, x, hi, lo, x, false);
        assert(scan_from(g, m, o, t, range, x, hi, lo) == scan_row_from(
            g,
            m,
            o,
            t,
            range,
            x,
            hi,
            lo,
            x,
            false,
        ));
    }
}

/// Every point the scan visits in row `x` from offset `y` down, or in any
/// later row, lies within the scan radius.
proof fn lemma_scan_row_range_bound<M: OpacityMap>(
    g: TileGeometry,
    m: M,
    o: Point,
    t: Mat2,
    range: int,
    x: int,
    hi: Slope,
    lo: Slope,
    y: int,
    prev: bool,
)
    requires
        fov_args_wf(o, range, t),
        1 <= x <= range,
    ensures
        forall|p: Point|
            #[trigger] scan_row_from(g, m, o, t, range, x, hi, lo, y, prev).contains(p) ==> dist2(
                o,
                p,
            ) <= range * range,
    decreases range + 1 - x, row_measure(x, lo, y),
{
    if y < row_start(x, lo) {
        if !prev && x + 1 <= range {
            lemma_scan_range_bound(g, m, o, t, range, x + 1, hi, lo);
            assert(scan_row_from(g, m, o, t, range, x, hi, lo, y, prev) == scan_from(
                g,
                m,
                o,
                t,
                range,
                x + 1,
                hi,
                lo,
            ));
        } else {
            assert(scan_row_from(g, m, o, t, range, x, hi, lo, y, prev) =~= Set::<
                Point,
            >::empty());
        }
    } else {
        let th = crate::tile_shape::tile_high_spec(g, m, o, t, x, y);
        let tl = crate::tile_shape::tile_low_spec(g, m, o, t, x, y);
        if slope_lt(hi, tl) {
            lemma_scan_row_range_bound(g, m, o, t, range, x, hi, lo, y - 1, prev);
            assert(scan_row_from(g, m, o, t, range, x, hi, lo, y, prev) == scan_row_from(
                g,
                m,
                o,
                t,
                range,
                x,
                hi,
                lo,
                y - 1,
                prev,
            ));
        } else if slope_lt(th, lo) {
            if !prev && x + 1 <= range {
                lemma_scan_range_bound(g, m, o, t, range, x + 1, hi, lo);
                assert(scan_row_from(g, m, o, t, range, x, hi, lo, y, prev) == scan_from(
                    g,
                    m,
                    o,
                    t,
                    range,
                    x + 1,
                    hi,
                    lo,
                ));
            } else {
                assert(scan_row_from(g, m, o, t, range, x, hi, lo, y, prev) =~= Set::<
                    Point,
                >::empty());
            }
        } else {
            let opq = opaque_at(m, o, t, x, y);
            let hi2 = if prev && !opq {
                crate::tile_shape::prev_low_spec(g, m, o, t, x, y)
            } else {
                hi
            };
            let pts = if in_disc(x, y, range) {
                set![world_point(o, t, x, y)]
            } else {
                Set::<Point>::empty()
            };
            let deeper = if !prev && opq && x + 1 <= range {
                scan_from(g, m, o, t, range, x + 1, hi, th)
            } else {
                Set::<Point>::empty()
            };
            let rest = scan_row_from(g, m, o, t, range, x, hi2, lo, y - 1, opq);
            if !prev && opq && x + 1 <= range {
                lemma_scan_range_bound(g, m, o, t, range, x + 1, hi, th);
            }
            lemma_scan_row_range_bound(g, m, o, t, range, x, hi2, lo, y - 1, opq);
            if in_disc(x, y, range) {
                lemma_world_dist(o, t, x, y, range);
            }
            assert(scan_row_from(g, m, o, t, range, x, hi, lo, y, prev) == pts.union(
                deeper,
            ).union(rest));
            assert forall|p: Point|
                #[trigger] scan_row_from(g, m, o, t, range, x, hi, lo, y, prev).contains(
                    p,
                ) implies dist2(o, p) <= range * range by {
                if pts.contains(p) {
                    assert(p == world_point(o, t, x, y) && in_disc(x, y, range));
                } else if deeper.contains(p) {
                } else {
                    assert(rest.contains(p));
                }
            }
        }
    }
}

/// Origin visibility: for any map, any tile geometry and any origin, the
/// origin itself always belongs to the visible set, regardless of its own
/// opacity.
pub proof fn lemma_origin_visible<M: OpacityMap>(g: TileGeometry, m: M, o: Point, range: int)
    ensures
        spec_visible(g, m, o, range).contains(o),
{
}

/// Range bound: every visible point lies within Euclidean distance `range`
/// of the origin, i.e. `(p.x-o.x)^2 + (p.y-o.y)^2 <= range^2`.
pub proof fn lemma_range_bound<M: OpacityMap>(
    g: TileGeometry,
    m: M,
    o: Point,
    range: int,
    p: Point,
)
    requires
        crate::vector::coord_in_range(o.x as int),
        crate::vector::coord_in_range(o.y as int),
        0 <= range <= max_range(),
        spec_visible(g, m, o, range).contains(p),
    ensures
        dist2(o, p) <= range * range,
{
    assert(0 <= range * range) by (nonlinear_arith)
        requires
            0 <= range,
    ;
    if p == o {
    } else {
        lemma_octants_range_bound(g, m, o, range, 0, p);
    }
}

/// Widening the radius only adds visible points: the wedge geometry of a
/// scan does not depend on the radius, which gates only the disc filter and
/// the recursion depth, and both grow with it.
proof fn lemma_scan_monotonic<M: OpacityMap>(
    g: TileGeometry,
    m: M,
    o: Point,
    t: Mat2,
    range: int,
    x: int,
    hi: Slope,
    lo: Slope,
)
    requires
        0 <= range,
        1 <= x,
    ensures
        forall|p: Point|
            #[trigger] scan_from(g, m, o, t, range, x, hi, lo).contains(p) ==> scan_from(
                g,
                m,
                o,
                t,
                range + 1,
                x,
                hi,
                lo,
            ).contains(p),
    decreases range + 2 - x, row_measure(x, lo, x) + 1,
{
    if slope_lt(hi, lo) || x > range {
        assert(scan_from(g, m, o, t, range, x, hi, lo) =~= Set::<Point>::empty());
    } else {
        lemma_scan_row_monotonic(g, m, o, t, range, x, hi, lo, x, false);
        assert(scan_from(g, m, o, t, range, x, hi, lo) == scan_row_from(
            g,
            m,
            o,
            t,
            range,
            x,
            hi,
            lo,
            x,
            false,
        ));
        assert(scan_from(g, m, o, t, range + 1, x, hi, lo) == scan_row_from(
            g,
            m,
            o,
            t,
            range + 1,
            x,
            hi,
            lo,
            x,
            false,
        ));
    }
}

/// Row-level version of [`lemma_scan_monotonic`].
proof fn lemma_scan_row_monotonic<M: OpacityMap>(
    g: TileGeometry,
    m: M,
    o: Point,
    t: Mat2,
    range: int,
    x: int,
    hi: Slope,
    lo: Slope,
    y: int,
    prev: bool,
)
    requires
        0 <= range,
        1 <= x <= range,
    ensures
        forall|p: Point|
            #[trigger] scan_row_from(g, m, o, t, range, x, hi, lo, y, prev).contains(p)
                ==> scan_row_from(g, m, o, t, range + 1, x, hi, lo, y, prev).contains(p),
    decreases range + 2 - x, row_measure(x, lo, y),
{
    let small = scan_row_from(g, m, o, t, range, x, hi, lo, y, prev);
    let big = scan_row_from(g, m, o, t, range + 1, x, hi, lo, y, prev);
    if y < row_start(x, lo) {
        if !prev {
            if x + 1 <= range {
                lemma_scan_monotonic(g, m, o, t, range, x + 1, hi, lo);
                assert(small == scan_from(g, m, o, t, range, x + 1, hi, lo));
                assert(big == scan_from(g, m, o, t, range + 1, x + 1, hi, lo));
            } else {
                assert(small =~= Set::<Point>::empty());
            }
        } else {
            assert(small =~= Set::<Point>::empty());
        }
    } else {
        let th = crate::tile_shape::tile_high_spec(g, m, o, t, x, y);
        let tl = crate::tile_shape::tile_low_spec(g, m, o, t, x, y);
        if slope_lt(hi, tl) {
            lemma_scan_row_monotonic(g, m, o, t, range, x, hi, lo, y - 1, prev);
            assert(small == scan_row_from(g, m, o, t, range, x, hi, lo, y - 1, prev));
            assert(big == scan_row_from(g, m, o, t, range + 1, x, hi, lo, y - 1, prev));
        } else if slope_lt(th, lo) {
            if !prev {
                if x + 1 <= range {
                    lemma_scan_monotonic(g, m, o, t, range, x + 1, hi, lo);
                    assert(small == scan_from(g, m, o, t, range, x + 1, hi, lo));
                    assert(big == scan_from(g, m, o, t, range + 1, x + 1, hi, lo));
                } else {
                    assert(small =~= Set::<Point>::empty());
                }
            } else {
                assert(small =~= Set::<Point>::empty());
            }
        } else {
            let opq = opaque_at(m, o, t, x, y);
            let hi2 = if prev && !opq {
                crate::tile_shape::prev_low_spec(g, m, o, t, x, y)
            } else {
                hi
            };
            let pts_s = if in_disc(x, y, range) {
                set![world_point(o, t, x, y)]
            } else {
                Set::<Point>::empty()
            };
            let pts_b = if in_disc(x, y, range + 1) {
                set![world_point(o, t, x, y)]
            } else {
                Set::<Point>::empty()
            };
            assert(in_disc(x, y, range) ==> in_disc(x, y, range + 1)) by (nonlinear_arith)
                requires
                    0 <= range,
            ;
            let deeper_s = if !prev && opq && x + 1 <= range {
                scan_from(g, m, o, t, range, x + 1, hi, th)
            } else {
                Set::<Point>::empty()
            };
            let deeper_b = if !prev && opq && x + 1 <= range + 1 {
                scan_from(g, m, o, t, range + 1, x + 1, hi, th)
            } else {
                Set::<Point>::empty()
            };
            if !prev && opq && x + 1 <= range {
                lemma_scan_monotonic(g, m, o, t, range, x + 1, hi, th);
            }
            lemma_scan_row_monotonic(g, m, o, t, range, x, hi2, lo, y - 1, opq);
            assert(small == pts_s.union(deeper_s).union(
                scan_row_from(g, m, o, t, range, x, hi2, lo, y - 1, opq),
            ));
            assert(big == pts_b.union(deeper_b).union(
                scan_row_from(g, m, o, t, range + 1, x, hi2, lo, y - 1, opq),
            ));
            assert forall|p: Point| #[trigger] small.contains(p) implies big.contains(p) by {
                if pts_s.contains(p) {
                    assert(pts_b.contains(p));
                } else if deeper_s.contains(p) {
                    assert(deeper_b.contains(p));
                } else {
                    assert(scan_row_from(g, m, o, t, range, x, hi2, lo, y - 1, opq).contains(p));
                }
            }
        }
    }
}

/// Monotonic range: everything visible at radius `range` stays visible at
/// radius `range + 1`, on any map and under any tile geometry.
pub proof fn lemma_range_monotonic<M: OpacityMap>(
    g: TileGeometry,
    m: M,
    o: Point,
    range: int,
    p: Point,
)
    requires
        0 <= range,
        spec_visible(g, m, o, range).contains(p),
    ensures
        spec_visible(g, m, o, range + 1).contains(p),
{
    if p != o {
        lemma_octants_monotonic(g, m, o, range, 0, p);
    }
}

/// Octant-union version of [`lemma_range_monotonic`].
proof fn lemma_octants_monotonic<M: OpacityMap>(
    g: TileGeometry,
    m: M,
    o: Point,
    range: int,
    k: int,
    p: Point,
)
    requires
        0 <= range,
        octants_from(g, m, o, range, k).contains(p),
    ensures
        octants_from(g, m, o, range + 1, k).contains(p),
    decreases 8 - k,
{
    if k < 0 || k >= 8 {
        assert(false);
    } else {
        let t = spec_octant_transform(k);
        let one = Slope { rise: 1, run: 1 };
        let zero = Slope { rise: 0, run: 0 };
        if scan_from(g, m, o, t, range, 1, one, zero).contains(p) {
            lemma_scan_monotonic(g, m, o, t, range, 1, one, zero);
        } else {
            lemma_octants_monotonic(g, m, o, range, k + 1, p);
        }
    }
}

/// Range bound for the union of octants `k..8`.
proof fn lemma_octants_range_bound<M: OpacityMap>(
    g: TileGeometry,
    m: M,
    o: Point,
    range: int,
    k: int,
    p: Point,
)
    requires
        crate::vector::coord_in_range(o.x as int),
        crate::vector::coord_in_range(o.y as int),
        0 <= range <= max_range(),
        octants_from(g, m, o, range, k).contains(p),
    ensures
        dist2(o, p) <= range * range,
    decreases 8 - k,
{
    if k < 0 || k >= 8 {
        assert(false);
    } else {
        let t = spec_octant_transform(k);
        assert(is_octant_matrix(t));
        if scan_from(
            g,
            m,
            o,
            t,
            range,
            1,
            Slope { rise: 1, run: 1 },
            Slope { rise: 0, run: 0 },
        ).contains(p) {
            lemma_scan_range_bound(
                g,
                m,
                o,
                t,
                range,
                1,
                Slope { rise: 1, run: 1 },
                Slope { rise: 0, run: 0 },
            );
        } else {
            lemma_octants_range_bound(g, m, o, range, k + 1, p);
        }
    }
}


/// The set of points an unobstructed octant cone reaches: every canonical
/// `(xx, yy)` with `x0 <= xx <= range`, `0 <= yy <= xx` that lies in the
/// scan disc.
pub open spec fn open_cone(o: Point, t: Mat2, range: int, x0: int) -> Set<Point> {
    Set::new(
        |p: Point|
            exists|xx: int, yy: int|
                x0 <= xx <= range && 0 <= yy <= xx && in_disc(xx, yy, range) && p
                    == world_point(o, t, xx, yy),
    )
}

/// The points of one unobstructed row: canonical `(x, yy)` for `0 <= yy <= y`
/// within the scan disc.
spec fn open_row(o: Point, t: Mat2, range: int, x: int, y: int) -> Set<Point> {
    Set::new(
        |p: Point|
            exists|yy: int|
                0 <= yy <= y && in_disc(x, yy, range) && p == world_point(o, t, x, yy),
    )
}

/// On the all-transparent map no tile is ever skipped, no wedge ever
/// narrows, and a row scan collects exactly its in-disc tiles before moving
/// to the next row.
proof fn lemma_open_row(
    g: TileGeometry,
    o: Point,
    t: Mat2,
    range: int,
    x: int,
    y: int,
)
    requires
        0 <= range <= max_range(),
        1 <= x <= range,
        y <= x,
    ensures
        scan_row_from(
            g,
            crate::opacity::OpenMap,
            o,
            t,
            range,
            x,
            Slope { rise: 1, run: 1 },
            Slope { rise: 0, run: 0 },
            y,
            false,
        ) == open_row(o, t, range, x, y).union(
            if x + 1 <= range {
                scan_from(
                    g,
                    crate::opacity::OpenMap,
                    o,
                    t,
                    range,
                    x + 1,
                    Slope { rise: 1, run: 1 },
                    Slope { rise: 0, run: 0 },
                )
            } else {
                Set::<Point>::empty()
            },
        ),
    decreases y + 1 - 0,
{
    let m = crate::opacity::OpenMap;
    let one = Slope { rise: 1, run: 1 };
    let zero = Slope { rise: 0, run: 0 };
    let next = if x + 1 <= range {
        scan_from(g, m, o, t, range, x + 1, one, zero)
    } else {
        Set::<Point>::empty()
    };
    assert(row_start(x, zero) == 0);
    if y < 0 {
        assert(open_row(o, t, range, x, y) =~= Set::<Point>::empty());
        assert(scan_row_from(g, m, o, t, range, x, one, zero, y, false) =~= open_row(
            o,
            t,
            range,
            x,
            y,
        ).union(next));
    } else {
        let th = crate::tile_shape::tile_high_spec(g, m, o, t, x, y);
        let tl = crate::tile_shape::tile_low_spec(g, m, o, t, x, y);
        assert(!wall_at_open(o, t, x, y) && !wall_at_open(o, t, x, y + 1) && !wall_at_open(
            o,
            t,
            x + 1,
            y,
        ));
        assert(tl == crate::slope::slope_new_spec(2 * y - 1, 2 * x + 1) || tl
            == crate::slope::slope_new_spec(2 * y - 1, 2 * x));
        assert(!slope_lt(one, tl));
        assert(!slope_lt(th, zero));
        assert(!opaque_at(m, o, t, x, y));
        lemma_open_row(g, o, t, range, x, y - 1);
        let pts = if in_disc(x, y, range) {
            set![world_point(o, t, x, y)]
        } else {
            Set::<Point>::empty()
        };
        assert(scan_row_from(g, m, o, t, range, x, one, zero, y, false) == pts.union(
            Set::<Point>::empty(),
        ).union(scan_row_from(g, m, o, t, range, x, one, zero, y - 1, false)));
        assert forall|p: Point| #[trigger] open_row(o, t, range, x, y).contains(p) implies pts.union(
            open_row(o, t, range, x, y - 1),
        ).contains(p) by {
            let yy = choose|yy: int|
                0 <= yy <= y && in_disc(x, yy, range) && p == world_point(o, t, x, yy);
            if yy == y {
            } else {
                assert(open_row(o, t, range, x, y - 1).contains(p));
            }
        }
        assert forall|p: Point| pts.union(open_row(o, t, range, x, y - 1)).contains(
            p,
        ) implies #[trigger] open_row(o, t, range, x, y).contains(p) by {
            if pts.contains(p) {
                assert(in_disc(x, y, range) && p == world_point(o, t, x, y));
            } else {
                let yy = choose|yy: int|
                    0 <= yy <= y - 1 && in_disc(x, yy, range) && p == world_point(o, t, x, yy);
            }
        }
        assert(open_row(o, t, range, x, y) =~= pts.union(open_row(o, t, range, x, y - 1)));
        assert(scan_row_from(g, m, o, t, range, x, one, zero, y, false) =~= open_row(
            o,
            t,
            range,
            x,
            y,
        ).union(next));
    }
}

/// Whether the all-transparent map has a wall at canonical coordinates:
/// it never does.
spec fn wall_at_open(o: Point, t: Mat2, x: int, y: int) -> bool {
    crate::tile_shape::wall_at(crate::opacity::OpenMap, o, t, x, y)
}

/// On the all-transparent map, the scan from row `x` with the full octant
/// wedge reaches exactly the open cone from `x`.
proof fn lemma_open_scan(g: TileGeometry, o: Point, t: Mat2, range: int, x: int)
    requires
        0 <= range <= max_range(),
        1 <= x,
    ensures
        scan_from(
            g,
            crate::opacity::OpenMap,
            o,
            t,
            range,
            x,
            Slope { rise: 1, run: 1 },
            Slope { rise: 0, run: 0 },
        ) == open_cone(o, t, range, x),
    decreases range + 1 - x,
{
    let m = crate::opacity::OpenMap;
    let one = Slope { rise: 1, run: 1 };
    let zero = Slope { rise: 0, run: 0 };
    if x > range {
        assert forall|p: Point| !(#[trigger] open_cone(o, t, range, x).contains(p)) by {
            if open_cone(o, t, range, x).contains(p) {
                let (xx, yy): (int, int) = choose|xx: int, yy: int|
                    x <= xx <= range && 0 <= yy <= xx && in_disc(xx, yy, range) && p
                        == world_point(o, t, xx, yy);
            }
        }
        assert(scan_from(g, m, o, t, range, x, one, zero) =~= open_cone(o, t, range, x));
    } else {
        assert(!slope_lt(one, zero));
        lemma_open_row(g, o, t, range, x, x);
        lemma_open_scan(g, o, t, range, x + 1);
        let next = if x + 1 <= range {
            scan_from(g, m, o, t, range, x + 1, one, zero)
        } else {
            Set::<Point>::empty()
        };
        if x + 1 > range {
            assert forall|p: Point|
                !(#[trigger] open_cone(o, t, range, x + 1).contains(p)) by {
                if open_cone(o, t, range, x + 1).contains(p) {
                    let (xx, yy): (int, int) = choose|xx: int, yy: int|
                        x + 1 <= xx <= range && 0 <= yy <= xx && in_disc(xx, yy, range) && p
                            == world_point(o, t, xx, yy);
                }
            }
            assert(next =~= open_cone(o, t, range, x + 1));
        }
        assert(scan_from(g, m, o, t, range, x, one, zero) == open_row(
            o,
            t,
            range,
            x,
            x,
        ).union(next));
        assert forall|p: Point| #[trigger] open_cone(o, t, range, x).contains(p) implies open_row(
            o,
            t,
            range,
            x,
            x,
        ).union(open_cone(o, t, range, x + 1)).contains(p) by {
            let (xx, yy): (int, int) = choose|xx: int, yy: int|
                x <= xx <= range && 0 <= yy <= xx && in_disc(xx, yy, range) && p == world_point(
                    o,
                    t,
                    xx,
                    yy,
                );
            if xx == x {
                assert(open_row(o, t, range, x, x).contains(p));
            } else {
                assert(open_cone(o, t, range, x + 1).contains(p));
            }
        }
        assert forall|p: Point|
            open_row(o, t, range, x, x).union(open_cone(o, t, range, x + 1)).contains(
                p,
            ) implies #[trigger] open_cone(o, t, range, x).contains(p) by {
            if open_row(o, t, range, x, x).contains(p) {
                let yy = choose|yy: int|
                    0 <= yy <= x && in_disc(x, yy, range) && p == world_point(o, t, x, yy);
                assert(x <= x <= range && 0 <= yy <= x && in_disc(x, yy, range) && p
                    == world_point(o, t, x, yy));
            } else {
                let (xx, yy): (int, int) = choose|xx: int, yy: int|
                    x + 1 <= xx <= range && 0 <= yy <= xx && in_disc(xx, yy, range) && p
                        == world_point(o, t, xx, yy);
                assert(x <= xx <= range && 0 <= yy <= xx && in_disc(xx, yy, range) && p
                    == world_point(o, t, xx, yy));
            }
        }
        assert(scan_from(g, m, o, t, range, x, one, zero) =~= open_cone(o, t, range, x));
    }
}

/// If one octant's scan sees `p`, the union of octants `j..8` sees `p`.
proof fn lemma_octants_cover<M: OpacityMap>(
    g: TileGeometry,
    m: M,
    o: Point,
    range: int,
    j: int,
    k: int,
    p: Point,
)
    requires
        0 <= j <= k < 8,
        scan_from(
            g,
            m,
            o,
            spec_octant_transform(k),
            range,
            1,
            Slope { rise: 1, run: 1 },
            Slope { rise: 0, run: 0 },
        ).contains(p),
    ensures
        octants_from(g, m, o, range, j).contains(p),
    decreases k - j,
{
    if j == k {
    } else {
        lemma_octants_cover(g, m, o, range, j + 1, k, p);
    }
}

/// Any displacement can be written as an octant transform applied to
/// canonical coordinates `(xx, yy)` with `0 <= yy <= xx`.
proof fn lemma_octant_decomposition(o: Point, p: Point, range: int) -> (r: (int, int, int))
    requires
        crate::vector::coord_in_range(o.x as int),
        crate::vector::coord_in_range(o.y as int),
        0 <= range <= max_range(),
        dist2(o, p) <= range * range,
        p != o,
    ensures
        0 <= r.0 < 8,
        1 <= r.1 <= range,
        0 <= r.2 <= r.1,
        in_disc(r.1, r.2, range),
        p == world_point(o, spec_octant_transform(r.0), r.1, r.2),
{
    let dx = p.x - o.x;
    let dy = p.y - o.y;
    let ax = if dx < 0 { -dx } else { dx };
    let ay = if dy < 0 { -dy } else { dy };
    let xx = if ay >= ax { ay } else { ax };
    let yy = if ay >= ax { ax } else { ay };
    let kk: int = if ay >= ax {
        if dy >= 0 {
            if dx >= 0 { 0 } else { 3 }
        } else {
            if dx >= 0 { 7 } else { 4 }
        }
    } else {
        if dy >= 0 {
            if dx >= 0 { 1 } else { 2 }
        } else {
            if dx >= 0 { 6 } else { 5 }
        }
    };
    let t = spec_octant_transform(kk);
    assert(xx * xx + yy * yy == dx * dx + dy * dy && xx * xx <= dx * dx + dy * dy)
        by (nonlinear_arith)
        requires
            ax == (if dx < 0 { -dx } else { dx }),
            ay == (if dy < 0 { -dy } else { dy }),
            xx == (if ay >= ax { ay } else { ax }),
            yy == (if ay >= ax { ax } else { ay }),
    ;
    assert(xx <= range) by (nonlinear_arith)
        requires
            xx * xx <= range * range,
            0 <= xx,
            0 <= range,
    ;
        if ay >= ax && dy >= 0 && dx >= 0 {
            assert(kk == 0);
            assert(t.col1.x == 1 && t.col1.y == 0 && t.col2.x == 0 && t.col2.y
                == 1);
            assert(t.col1.x * yy + t.col2.x * xx == dx && t.col1.y * yy + t.col2.y * xx == dy)
                by (nonlinear_arith)
                requires
                    t.col1.x == 1,
                    t.col1.y == 0,
                    t.col2.x == 0,
                    t.col2.y == 1,
                    ay >= ax ==> xx == ay && yy == ax,
                    ax > ay ==> xx == ax && yy == ay,
                    ax == (if dx < 0 { -dx } else { dx }),
                    ay == (if dy < 0 { -dy } else { dy }),
                    ay >= ax && dy >= 0 && dx >= 0,
            ;
        }
        if ay >= ax && dy >= 0 && dx < 0 {
            assert(kk == 3);
            assert(t.col1.x == -1 && t.col1.y == 0 && t.col2.x == 0 && t.col2.y
                == 1);
            assert(t.col1.x * yy + t.col2.x * xx == dx && t.col1.y * yy + t.col2.y * xx == dy)
                by (nonlinear_arith)
                requires
                    t.col1.x == -1,
                    t.col1.y == 0,
                    t.col2.x == 0,
                    t.col2.y == 1,
                    ay >= ax ==> xx == ay && yy == ax,
                    ax > ay ==> xx == ax && yy == ay,
                    ax == (if dx < 0 { -dx } else { dx }),
                    ay == (if dy < 0 { -dy } else { dy }),
                    ay >= ax && dy >= 0 && dx < 0,
            ;
        }
        if ay >= ax && dy < 0 && dx >= 0 {
            assert(kk == 7);
            assert(t.col1.x == 1 && t.col1.y == 0 && t.col2.x == 0 && t.col2.y
                == -1);
            assert(t.col1.x * yy + t.col2.x * xx == dx && t.col1.y * yy + t.col2.y * xx == dy)
                by (nonlinear_arith)
                requires
                    t.col1.x == 1,
                    t.col1.y == 0,
                    t.col2.x == 0,
                    t.col2.y == -1,
                    ay >= ax ==> xx == ay && yy == ax,
                    ax > ay ==> xx == ax && yy == ay,
                    ax == (if dx < 0 { -dx } else { dx }),
                    ay == (if dy < 0 { -dy } else { dy }),
                    ay >= ax && dy < 0 && dx >= 0,
            ;
        }
        if ay >= ax && dy < 0 && dx < 0 {
            assert(kk == 4);
            assert(t.col1.x == -1 && t.col1.y == 0 && t.col2.x == 0 && t.col2.y
                == -1);
            assert(t.col1.x * yy + t.col2.x * xx == dx && t.col1.y * yy + t.col2.y * xx == dy)
                by (nonlinear_arith)
                requires
                    t.col1.x == -1,
                    t.col1.y == 0,
                    t.col2.x == 0,
                    t.col2.y == -1,
                    ay >= ax ==> xx == ay && yy == ax,
                    ax > ay ==> xx == ax && yy == ay,
                    ax == (if dx < 0 { -dx } else { dx }),
                    ay == (if dy < 0 { -dy } else { dy }),
                    ay >= ax && dy < 0 && dx < 0,
            ;
        }
        if ax > ay && dy >= 0 && dx >= 0 {
            assert(kk == 1);
            assert(t.col1.x == 0 && t.col1.y == 1 && t.col2.x == 1 && t.col2.y
                == 0);
            assert(t.col1.x * yy + t.col2.x * xx == dx && t.col1.y * yy + t.col2.y * xx == dy)
                by (nonlinear_arith)
                requires
                    t.col1.x == 0,
                    t.col1.y == 1,
                    t.col2.x == 1,
                    t.col2.y == 0,
                    ay >= ax ==> xx == ay && yy == ax,
                    ax > ay ==> xx == ax && yy == ay,
                    ax == (if dx < 0 { -dx } else { dx }),
                    ay == (if dy < 0 { -dy } else { dy }),
                    ax > ay && dy >= 0 && dx >= 0,
            ;
        }
        if ax > ay && dy >= 0 && dx < 0 {
            assert(kk == 2);
            assert(t.col1.x == 0 && t.col1.y == 1 && t.col2.x == -1 && t.col2.y
                == 0);
            assert(t.col1.x * yy + t.col2.x * xx == dx && t.col1.y * yy + t.col2.y * xx == dy)
                by (nonlinear_arith)
                requires
                    t.col1.x == 0,
                    t.col1.y == 1,
                    t.col2.x == -1,
                    t.col2.y == 0,
                    ay >= ax ==> xx == ay && yy == ax,
                    ax > ay ==> xx == ax && yy == ay,
                    ax == (if dx < 0 { -dx } else { dx }),
                    ay == (if dy < 0 { -dy } else { dy }),
                    ax > ay && dy >= 0 && dx < 0,
            ;
        }
        if ax > ay && dy < 0 && dx >= 0 {
            assert(kk == 6);
            assert(t.col1.x == 0 && t.col1.y == -1 && t.col2.x == 1 && t.col2.y
                == 0);
            assert(t.col1.x * yy + t.col2.x * xx == dx && t.col1.y * yy + t.col2.y * xx == dy)
                by (nonlinear_arith)
                requires
                    t.col1.x == 0,
                    t.col1.y == -1,
                    t.col2.x == 1,
                    t.col2.y == 0,
                    ay >= ax ==> xx == ay && yy == ax,
                    ax > ay ==> xx == ax && yy == ay,
                    ax == (if dx < 0 { -dx } else { dx }),
                    ay == (if dy < 0 { -dy } else { dy }),
                    ax > ay && dy < 0 && dx >= 0,
            ;
        }
        if ax > ay && dy < 0 && dx < 0 {
            assert(kk == 5);
            assert(t.col1.x == 0 && t.col1.y == -1 && t.col2.x == -1 && t.col2.y
                == 0);
            assert(t.col1.x * yy + t.col2.x * xx == dx && t.col1.y * yy + t.col2.y * xx == dy)
                by (nonlinear_arith)
                requires
                    t.col1.x == 0,
                    t.col1.y == -1,
                    t.col2.x == -1,
                    t.col2.y == 0,
                    ay >= ax ==> xx == ay && yy == ax,
                    ax > ay ==> xx == ax && yy == ay,
                    ax == (if dx < 0 { -dx } else { dx }),
                    ay == (if dy < 0 { -dy } else { dy }),
                    ax > ay && dy < 0 && dx < 0,
            ;
        }
    assert(p.x as int == o.x + t.col1.x * yy + t.col2.x * xx && p.y as int == o.y + t.col1.y * yy
        + t.col2.y * xx);
    assert(p == world_point(o, t, xx, yy));
    (kk, xx, yy)
}

/// On a map with no opaque tiles, a point is visible exactly when it lies
/// within the scan radius of the origin.
pub proof fn lemma_open_map_visibility(g: TileGeometry, o: Point, range: int, p: Point)
    requires
        crate::vector::coord_in_range(o.x as int),
        crate::vector::coord_in_range(o.y as int),
        0 <= range <= max_range(),
    ensures
        spec_visible(g, crate::opacity::OpenMap, o, range).contains(p) <==> dist2(o, p) <= range
            * range,
{
    let m = crate::opacity::OpenMap;
    if spec_visible(g, m, o, range).contains(p) {
        lemma_range_bound(g, m, o, range, p);
    }
    if dist2(o, p) <= range * range {
        if p == o {
        } else {
            let (kk, xx, yy) = lemma_octant_decomposition(o, p, range);
            let t = spec_octant_transform(kk);
            lemma_open_scan(g, o, t, range, 1);
            assert(open_cone(o, t, range, 1).contains(p)) by {
                assert(1 <= xx <= range && 0 <= yy <= xx && in_disc(xx, yy, range) && p
                    == world_point(o, t, xx, yy));
            }
            lemma_octants_cover(g, m, o, range, 0, kk, p);
        }
    }
}

/// Empty-map symmetry: on a map with no opaque tiles, `a` sees `b` exactly
/// when `b` sees `a`.
pub proof fn lemma_open_map_symmetry(g: TileGeometry, a: Point, b: Point, range: int)
    requires
        crate::vector::coord_in_range(a.x as int),
        crate::vector::coord_in_range(a.y as int),
        crate::vector::coord_in_range(b.x as int),
        crate::vector::coord_in_range(b.y as int),
        0 <= range <= max_range(),
    ensures
        spec_visible(g, crate::opacity::OpenMap, a, range).contains(b) <==> spec_visible(
            g,
            crate::opacity::OpenMap,
            b,
            range,
        ).contains(a),
{
    lemma_open_map_visibility(g, a, range, b);
    lemma_open_map_visibility(g, b, range, a);
    assert(dist2(a, b) == dist2(b, a)) by (nonlinear_arith);
}



/// Strict growth on the all-transparent map: a point in the wider ring is
/// visible at radius `range + 1` but not at radius `range`, so the visible
/// set grows strictly whenever new in-range tiles exist.
pub proof fn lemma_open_map_strict_growth(g: TileGeometry, o: Point, range: int, p: Point)
    requires
        crate::vector::coord_in_range(o.x as int),
        crate::vector::coord_in_range(o.y as int),
        0 <= range < max_range(),
        range * range < dist2(o, p) <= (range + 1) * (range + 1),
    ensures
        spec_visible(g, crate::opacity::OpenMap, o, range + 1).contains(p),
        !spec_visible(g, crate::opacity::OpenMap, o, range).contains(p),
{
    lemma_open_map_visibility(g, o, range, p);
    lemma_open_map_visibility(g, o, range + 1, p);
}


} // verus!
