//! The recursive symmetric shadowcasting scan.
//!
//! `scan_from` and `scan_row_from` are the mathematical model: they define,
//! by recursion over rows and tiles, exactly which world points one octant's
//! scan visits. The executable scanner is proved to visit precisely that set,
//! and the public entry points assemble the eight octants around the origin.

use vstd::prelude::*;

use crate::matrix::Mat2;
use crate::numeric::{div_trunc, div_trunc_spec};
use crate::octant::{octant_transform, spec_octant_transform};
use crate::opacity::{blocks, Opacity, OpacityMap};
use crate::slope::{slope_lt, Slope};
use crate::tile_shape::{
    frame_wf, max_range, prev_low, prev_low_spec, tile_high, tile_high_spec, tile_low,
    tile_low_spec, to_world, world_point, TileGeometry,
};
use crate::vector::Point;

verus! {

broadcast use vstd::seq_lib::group_seq_properties;

/// Arguments every scan entry point accepts: a bounded origin, one of the
/// eight octant transforms, and a radius up to [`max_range`].
pub open spec fn fov_args_wf(o: Point, range: int, t: Mat2) -> bool {
    &&& frame_wf(o, t)
    &&& 0 <= range <= max_range()
}

/// The slope bounds maintained throughout a scan of the given radius.
pub open spec fn slope_wf(s: Slope, range: int) -> bool {
    &&& 0 <= s.rise <= 2 * range + 1
    &&& 0 <= s.run <= 2 * range + 1
}

/// Whether the scan's occlusion test treats canonical `(x, y)` as opaque:
/// anything but an in-domain transparent tile blocks light.
pub open spec fn opaque_at<M: OpacityMap>(m: M, o: Point, t: Mat2, x: int, y: int) -> bool {
    blocks(m, world_point(o, t, x, y))
}

/// Whether canonical `(x, y)` lies within the scan radius.
pub open spec fn in_disc(x: int, y: int, range: int) -> bool {
    x * x + y * y <= range * range
}

/// The first (lowest) lateral offset of row `x` that the scan visits, derived
/// from the lower wedge bound by truncating division; `0` for the degenerate
/// zero-run bound.
pub open spec fn row_start(x: int, lo: Slope) -> int {
    if lo.run > 0 {
        div_trunc_spec((2 * x - 1) * lo.rise - lo.run, 2 * lo.run)
    } else {
        0
    }
}

/// Termination measure for the walk down one row.
pub open spec fn row_measure(x: int, lo: Slope, y: int) -> int {
    if y < row_start(x, lo) {
        0
    } else {
        y - row_start(x, lo) + 1
    }
}

/// The set of world points the scan visits from row `x` on, within the wedge
/// `[hi, lo]`.
pub open spec fn scan_from<M: OpacityMap>(
    g: TileGeometry,
    m: M,
    o: Point,
    t: Mat2,
    range: int,
    x: int,
    hi: Slope,
    lo: Slope,
) -> Set<Point>
    decreases range + 1 - x, row_measure(x, lo, x) + 1,
{
    if slope_lt(hi, lo) || x > range {
        Set::empty()
    } else {
        scan_row_from(g, m, o, t, range, x, hi, lo, x, false)
    }
}

/// The set of world points the scan visits in row `x` from lateral offset `y`
/// downward, and in all rows beyond; `prev` records whether the previously
/// visited tile of this row was opaque.
pub open spec fn scan_row_from<M: OpacityMap>(
    g: TileGeometry,
    m: M,
    o: Point,
    t: Mat2,
    range: int,
    x: int,
    hi: Slope,
    lo: Slope,
    y: int,
    prev: bool,
) -> Set<Point>
    decreases range + 1 - x, row_measure(x, lo, y),
{
    if y < row_start(x, lo) {
        // The row is exhausted; an open-ended row continues into the next one.
        if !prev && x + 1 <= range {
            scan_from(g, m, o, t, range, x + 1, hi, lo)
        } else {
            Set::empty()
        }
    } else {
        let th = tile_high_spec(g, m, o, t, x, y);
        let tl = tile_low_spec(g, m, o, t, x, y);
        if slope_lt(hi, tl) {
            // Tile entirely above the wedge: skip it.
            scan_row_from(g, m, o, t, range, x, hi, lo, y - 1, prev)
        } else if slope_lt(th, lo) {
            // Tile entirely below the wedge: the rest of the row is too.
            if !prev && x + 1 <= range {
                scan_from(g, m, o, t, range, x + 1, hi, lo)
            } else {
                Set::empty()
            }
        } else {
            let opq = opaque_at(m, o, t, x, y);
            let pts = if in_disc(x, y, range) {
                set![world_point(o, t, x, y)]
            } else {
                Set::<Point>::empty()
            };
            let hi2 = if prev && !opq {
                prev_low_spec(g, m, o, t, x, y)
            } else {
                hi
            };
            let deeper = if !prev && opq && x + 1 <= range {
                scan_from(g, m, o, t, range, x + 1, hi, th)
            } else {
                Set::<Point>::empty()
            };
            pts.union(deeper).union(scan_row_from(g, m, o, t, range, x, hi2, lo, y - 1, opq))
        }
    }
}

/// The union of the scans of octants `k..8`.
pub open spec fn octants_from<M: OpacityMap>(
    g: TileGeometry,
    m: M,
    o: Point,
    range: int,
    k: int,
) -> Set<Point>
    decreases 8 - k,
{
    if k < 0 || k >= 8 {
        Set::empty()
    } else {
        scan_from(
            g,
            m,
            o,
            spec_octant_transform(k),
            range,
            1,
            Slope { rise: 1, run: 1 },
            Slope { rise: 0, run: 0 },
        ).union(octants_from(g, m, o, range, k + 1))
    }
}

/// The full visible set: the origin itself plus the eight octant scans.
pub open spec fn spec_visible<M: OpacityMap>(
    g: TileGeometry,
    m: M,
    o: Point,
    range: int,
) -> Set<Point> {
    octants_from(g, m, o, range, 0).insert(o)
}

/// The first lateral offset of row `x` for the wedge's lower bound; never
/// negative.
fn compute_row_start(x: i32, lo: Slope, range: i32) -> (r: i32)
    requires
        1 <= x <= range,
        0 <= range <= max_range(),
        slope_wf(lo, range as int),
    ensures
        r == row_start(x as int, lo),
        0 <= r,
{
    if lo.run > 0 {
        proof {
            crate::numeric::lemma_mul_bounds(2 * x as int - 1, lo.rise as int, 32001);
            assert((2 * x as int - 1) * (lo.rise as int) >= 0) by (nonlinear_arith)
                requires
                    x >= 1,
                    lo.rise >= 0,
            ;
            let num = (2 * x as int - 1) * (lo.rise as int) - lo.run as int;
            let den = 2 * lo.run as int;
            if num >= 0 {
                vstd::arithmetic::div_mod::lemma_div_pos_is_pos(num, den);
            } else {
                vstd::arithmetic::div_mod::lemma_basic_div(crate::numeric::abs_spec(num), den);
            }
        }
        div_trunc((2 * x - 1) * lo.rise - lo.run, 2 * lo.run)
    } else {
        0
    }
}

/// Scans one octant from row `x` within the wedge `[slope_high, slope_low]`,
/// appending every visited world point to `out`.
///
/// The appended points are exactly `scan_from` of the same arguments, and
/// what was in `out` stays untouched in front of them.
#[verifier::loop_isolation(false)]
fn scan_octant<M: OpacityMap>(
    g: TileGeometry,
    map: &M,
    origin: Point,
    range: i32,
    transform: Mat2,
    x: i32,
    slope_high: Slope,
    slope_low: Slope,
    out: &mut Vec<Point>,
)
    requires
        fov_args_wf(origin, range as int, transform),
        1 <= x <= range + 1,
        slope_wf(slope_high, range as int),
        slope_wf(slope_low, range as int),
    ensures
        final(out)@.len() >= old(out)@.len(),
        final(out)@.subrange(0, old(out)@.len() as int) == old(out)@,
        final(out)@.to_set() == old(out)@.to_set().union(
            scan_from(
                g,
                *map,
                origin,
                transform,
                range as int,
                x as int,
                slope_high,
                slope_low,
            ),
        ),
    decreases range + 1 - x,
{
    let ghost target = scan_from(
        g,
        *map,
        origin,
        transform,
        range as int,
        x as int,
        slope_high,
        slope_low,
    );
    if slope_high.lt(&slope_low) || x > range {
        proof {
            assert(target =~= Set::<Point>::empty());
            assert(out@.to_set() =~= out@.to_set().union(target));
            assert(out@.subrange(0, out@.len() as int) =~= out@);
        }
        return ;
    }
    let y0 = compute_row_start(x, slope_low, range);

    let mut y: i32 = x;
    let mut prev_opaque: bool = false;
    let mut hi: Slope = slope_high;
    let mut broke: bool = false;

    proof {
        assert(out@.subrange(0, out@.len() as int) =~= out@);
        assert(out@.to_set().union(
            scan_row_from(
                g,
                *map,
                origin,
                transform,
                range as int,
                x as int,
                hi,
                slope_low,
                y as int,
                prev_opaque,
            ),
        ) =~= out@.to_set().union(target));
    }

    while !broke && y >= y0
        invariant
            y <= x,
            slope_wf(hi, range as int),
            out@.len() >= old(out)@.len(),
            out@.subrange(0, old(out)@.len() as int) == old(out)@,
            out@.to_set().union(
                scan_row_from(
                    g,
                    *map,
                    origin,
                    transform,
                    range as int,
                    x as int,
                    hi,
                    slope_low,
                    y as int,
                    prev_opaque,
                ),
            ) == old(out)@.to_set().union(target),
            broke ==> scan_row_from(
                g,
                *map,
                origin,
                transform,
                range as int,
                x as int,
                hi,
                slope_low,
                y as int,
                prev_opaque,
            ) == (if !prev_opaque && x + 1 <= range {
                scan_from(
                    g,
                    *map,
                    origin,
                    transform,
                    range as int,
                    x as int + 1,
                    hi,
                    slope_low,
                )
            } else {
                Set::<Point>::empty()
            }),
        decreases (if broke {
            0int
        } else {
            1int
        }), y - y0 + 1,
    {
        let ghost row_before = scan_row_from(
            g,
            *map,
            origin,
            transform,
            range as int,
            x as int,
            hi,
            slope_low,
            y as int,
            prev_opaque,
        );
        let tile_hi = tile_high(g, map, origin, transform, x, y);
        let tile_lo = tile_low(g, map, origin, transform, x, y);
        if tile_lo.gt(&hi) {
            y = y - 1;
        } else if tile_hi.lt(&slope_low) {
            broke = true;
        } else {
            proof {
                crate::numeric::lemma_mul_bounds(x as int, x as int, 16000);
                crate::numeric::lemma_mul_bounds(y as int, y as int, 16000);
                crate::numeric::lemma_mul_bounds(range as int, range as int, 16000);
            }
            let in_range = x * x + y * y <= range * range;
            let map_pt = to_world(origin, transform, x, y);
            let opaque = match map.get(map_pt) {
                Some(Opacity::Transparent) => false,
                _ => true,
            };
            let ghost out_before = out@;
            if in_range {
                out.push(map_pt);
            }
            proof {
                assert(out@.subrange(0, old(out)@.len() as int) =~= old(out)@);
                assert(out@.to_set() =~= out_before.to_set().union(
                    if in_disc(x as int, y as int, range as int) {
                        set![world_point(origin, transform, x as int, y as int)]
                    } else {
                        Set::<Point>::empty()
                    },
                ));
            }
            if prev_opaque && !opaque {
                hi = prev_low(g, map, origin, transform, x, y);
            }
            let ghost out_mid = out@;
            if !prev_opaque && opaque {
                scan_octant(g, map, origin, range, transform, x + 1, hi, tile_hi, out);
            }
            proof {
                let gi = g;
                let mi = *map;
                let oi = origin;
                let ti = transform;
                let ri = range as int;
                let xi = x as int;
                let yi = y as int;
                let deeper = if !prev_opaque && opaque && xi + 1 <= ri {
                    scan_from(gi, mi, oi, ti, ri, xi + 1, hi, tile_hi)
                } else {
                    Set::<Point>::empty()
                };
                if !prev_opaque && opaque {
                    if xi + 1 > ri {
                        assert(scan_from(gi, mi, oi, ti, ri, xi + 1, hi, tile_hi)
                            =~= Set::<Point>::empty());
                    }
                    assert(out@.to_set() =~= out_mid.to_set().union(deeper));
                } else {
                    assert(out@.to_set() =~= out_mid.to_set().union(deeper));
                }
                assert(out@.subrange(0, old(out)@.len() as int) =~= old(out)@);
                assert(row_before == (if in_disc(xi, yi, ri) {
                    set![world_point(oi, ti, xi, yi)]
                } else {
                    Set::<Point>::empty()
                }).union(deeper).union(
                    scan_row_from(gi, mi, oi, ti, ri, xi, hi, slope_low, yi - 1, opaque),
                ));
                assert(out@.to_set().union(
                    scan_row_from(gi, mi, oi, ti, ri, xi, hi, slope_low, yi - 1, opaque),
                ) =~= old(out)@.to_set().union(target));
            }
            prev_opaque = opaque;
            y = y - 1;
        }
    }

    if !prev_opaque {
        let ghost out_mid = out@;
        scan_octant(g, map, origin, range, transform, x + 1, hi, slope_low, out);
        proof {
            if x as int + 1 > range as int {
                assert(scan_from(
                    g,
                    *map,
                    origin,
                    transform,
                    range as int,
                    x as int + 1,
                    hi,
                    slope_low,
                ) =~= Set::<Point>::empty());
            }
            assert(out@.subrange(0, old(out)@.len() as int) =~= old(out)@);
            assert(out@.to_set() =~= old(out)@.to_set().union(target));
        }
    } else {
        proof {
            assert(out@.to_set() =~= old(out)@.to_set().union(target));
        }
    }
}

/// Computes the set of tiles visible from `origin` within `range` under the
/// tile geometry `g`, as a vector whose first element is the origin.
///
/// The returned points are exactly [`spec_visible`]: the origin (always),
/// plus everything the eight octant scans visit. Tiles on an octant seam may
/// appear more than once, as they are visited once per adjacent octant.
#[verifier::loop_isolation(false)]
pub fn field_of_view<M: OpacityMap>(
    g: TileGeometry,
    map: &M,
    origin: Point,
    range: i32,
) -> (r: Vec<Point>)
    requires
        crate::vector::coord_in_range(origin.x as int),
        crate::vector::coord_in_range(origin.y as int),
        0 <= range <= max_range(),
    ensures
        r@.to_set() == spec_visible(g, *map, origin, range as int),
        r@.to_set().contains(origin),
        r@.len() >= 1,
        r@[0] == origin,
{
    let mut out: Vec<Point> = Vec::new();
    out.push(origin);
    proof {
        assert(out@.to_set() =~= Set::<Point>::empty().insert(origin));
    }
    let mut k: u32 = 0;
    while k < 8
        invariant
            k <= 8,
            out@.len() >= 1,
            out@[0] == origin,
            out@.to_set().union(
                octants_from(g, *map, origin, range as int, k as int),
            ) == spec_visible(g, *map, origin, range as int),
        decreases 8 - k,
    {
        let transform = octant_transform(k);
        let ghost out_before = out@;
        scan_octant(
            g,
            map,
            origin,
            range,
            transform,
            1,
            Slope::one(),
            Slope::zero(),
            &mut out,
        );
        proof {
            assert(out@[0] == out_before[0]) by {
                assert(out@.subrange(0, out_before.len() as int)[0] == out@[0]);
            }
            assert(out@.to_set().union(
                octants_from(g, *map, origin, range as int, k as int + 1),
            ) =~= spec_visible(g, *map, origin, range as int));
        }
        k = k + 1;
    }
    proof {
        assert(octants_from(g, *map, origin, range as int, 8) =~= Set::<Point>::empty());
        assert(out@.to_set() =~= spec_visible(g, *map, origin, range as int));
    }
    out
}

/// Casts light in all directions from `origin` using square tiles, invoking
/// `callback` once for each visited tile, the origin first.
///
/// The set of visited tiles is pinned down by [`field_of_view`], which this
/// function merely replays through the callback.
pub fn cast_light_2d<M: OpacityMap, F: FnMut(Point)>(
    map: &M,
    origin: Point,
    range: i32,
    callback: F,
)
    requires
        crate::vector::coord_in_range(origin.x as int),
        crate::vector::coord_in_range(origin.y as int),
        0 <= range <= max_range(),
        forall|cb: F, p: Point| #[trigger] call_requires(cb, (p,)),
{
    let pts = field_of_view(TileGeometry::Square, map, origin, range);
    replay(pts, callback);
}

/// Casts light from `origin` using diamond-shaped tiles, which reveal more
/// around corners than square tiles; see [`cast_light_2d`].
pub fn cast_light_2d_diamond<M: OpacityMap, F: FnMut(Point)>(
    map: &M,
    origin: Point,
    range: i32,
    callback: F,
)
    requires
        crate::vector::coord_in_range(origin.x as int),
        crate::vector::coord_in_range(origin.y as int),
        0 <= range <= max_range(),
        forall|cb: F, p: Point| #[trigger] call_requires(cb, (p,)),
{
    let pts = field_of_view(TileGeometry::Diamond, map, origin, range);
    replay(pts, callback);
}

/// Casts light from `origin` using beveled corner tiles, which produce
/// natural-looking shadows around wall corners; see [`cast_light_2d`].
pub fn cast_light_2d_beveled<M: OpacityMap, F: FnMut(Point)>(
    map: &M,
    origin: Point,
    range: i32,
    callback: F,
)
    requires
        crate::vector::coord_in_range(origin.x as int),
        crate::vector::coord_in_range(origin.y as int),
        0 <= range <= max_range(),
        forall|cb: F, p: Point| #[trigger] call_requires(cb, (p,)),
{
    let pts = field_of_view(TileGeometry::Beveled, map, origin, range);
    replay(pts, callback);
}

/// Casts light in all directions from `origin` with the classic square-tile
/// geometry; the oldest entry point, equivalent to [`cast_light_2d`].
pub fn cast_light<M: OpacityMap, F: FnMut(Point)>(map: &M, origin: Point, range: i32, callback: F)
    requires
        crate::vector::coord_in_range(origin.x as int),
        crate::vector::coord_in_range(origin.y as int),
        0 <= range <= max_range(),
        forall|cb: F, p: Point| #[trigger] call_requires(cb, (p,)),
{
    let pts = field_of_view(TileGeometry::Square, map, origin, range);
    replay(pts, callback);
}

/// Invokes `callback` on each point of `pts` in order.
#[verifier::loop_isolation(false)]
fn replay<F: FnMut(Point)>(pts: Vec<Point>, callback: F)
    requires
        forall|cb: F, p: Point| #[trigger] call_requires(cb, (p,)),
{
    let mut cb = callback;
    let mut i: usize = 0;
    let n = pts.len();
    while i < n
        invariant
            n == pts@.len(),
        decreases n - i,
    {
        cb(pts[i]);
        i = i + 1;
    }
}

} // verus!
