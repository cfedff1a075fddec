//! Grid geometry and field-of-view algorithms for tile-based games.
//!
//! The centerpiece is a recursive symmetric shadowcasting engine that computes
//! which tiles are visible from an origin point on a 2D map, with exact
//! rational-slope arithmetic and three interchangeable tile geometries
//! (square, diamond, and corner-beveled tiles).

mod a_star;
mod ascii_glyph;
mod bounds;
mod bresenham;
mod color;
mod fov_laws;
mod graph;
mod grid2d;
mod half_space;
mod intern_pool;
mod layout;
mod matrix;
mod metric;
mod min_heap_entry;
mod neighborhood;
mod numeric;
mod octant;
mod opacity;
mod pq_entry;
mod quadtree;
mod shadow_cast;
mod slope;
mod space;
mod tile_shape;
mod tilebin;
mod vector;

pub use a_star::{a_star, Passability};
pub use ascii_glyph::AsciiGlyph;
pub use bounds::{Bounds, Rect};
pub use bresenham::Bresenham;
pub use color::Rgb8;
pub use fov_laws::{
    dist2, lemma_open_map_strict_growth, lemma_open_map_symmetry, lemma_open_map_visibility,
    lemma_origin_visible, lemma_range_bound, lemma_range_monotonic, open_cone,
};
pub use graph::{
    BaseGraph, GraphFunctorView, LabeledGraph, LabeledSpatialGraph, SpatialGraph,
    TransformableGraph,
};
pub use grid2d::Grid2D;
pub use half_space::{AxialHalfSpace, OrthoLine};
pub use intern_pool::{InternID, InternPool};
pub use layout::{
    anchored, centered, panel, stack, AnchorEdge, LayoutElement, LayoutError, LayoutKind,
    LayoutMutVisitor, LayoutVisitor, PanelSize,
};
pub use matrix::Mat2;
pub use metric::{Chebyshev, Euclidean, Manhattan, VectorMetric};
pub use min_heap_entry::MinHeapEntry;
pub use neighborhood::MooreNeighbor;
pub use numeric::{HasOne, HasZero, Ring};
pub use octant::octant_transform;
pub use opacity::{blocks, Opacity, OpacityMap, OpenMap};
pub use pq_entry::PQEntry;
pub use quadtree::{build_quadtree, Node, NodePayload};
pub use shadow_cast::{
    cast_light, cast_light_2d, cast_light_2d_beveled, cast_light_2d_diamond, field_of_view,
    fov_args_wf, spec_visible,
};
pub use slope::Slope;
pub use space::{BaseMap, MapFunctorView, MapOf, TransformableMap};
pub use tile_shape::{
    AdamMilazzoTileShape, DiamondTileShape, SquareTileShape, TileGeometry, TileShape,
};
pub use tilebin::TileBin;
pub use vector::{
    Axis2D, Axis3D, Axis4D, AxisError, Point, Point3, Vector2, Vector3, Vector4,
};
