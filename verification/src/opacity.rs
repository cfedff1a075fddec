//! Opacity labels and the read-only map interface the shadowcasting scan
//! consumes.

use vstd::prelude::*;

use crate::vector::Point;

verus! {

/// Represents whether a tile or object blocks light for field of view
/// calculations.
#[derive(Debug, Clone, Copy, PartialEq, Eq, Structural)]
pub enum Opacity {
    /// The tile blocks light completely (walls, solid objects).
    Opaque,
    /// The tile allows light to pass through (empty space, windows).
    Transparent,
}

/// A read-only map that can report the opacity of any tile.
///
/// `opacity_at` is the mathematical content of the map: `get` must return
/// exactly it. `None` means the point is outside the map's domain; the scan
/// conservatively treats such tiles as blocking light.
pub trait OpacityMap {
    /// The opacity of the tile at `p`, or `None` outside the map's domain.
    spec fn opacity_at(&self, p: Point) -> Option<Opacity>;

    /// Looks up the opacity of the tile at `p`.
    fn get(&self, p: Point) -> (r: Option<Opacity>)
        ensures
            r == self.opacity_at(p),
    ;
}

/// Whether the tile at canonical position `p` blocks light on map `m`:
/// anything other than an in-domain transparent tile is treated as opaque.
pub open spec fn blocks<M: OpacityMap>(m: M, p: Point) -> bool {
    m.opacity_at(p) != Some(Opacity::Transparent)
}

/// A map with no opaque tiles anywhere: every point of the plane is
/// transparent. Light on this map is limited by range alone, which makes it
/// the reference model for the range-monotonicity and symmetry laws.
pub struct OpenMap;

impl OpacityMap for OpenMap {
    open spec fn opacity_at(&self, p: Point) -> Option<Opacity> {
        Some(Opacity::Transparent)
    }

    fn get(&self, p: Point) -> (r: Option<Opacity>) {
        Some(Opacity::Transparent)
    }
}

} // verus!
