//! Map abstractions over coordinates: the tile-map counterpart of the graph
//! traits, kept for callers that think in terms of maps rather than graphs.

use vstd::prelude::*;

use crate::grid2d::Grid2D;
use crate::graph::BaseGraph;
use crate::vector::Point;

verus! {

/// A map whose tiles are identified by coordinates, with adjacency and a
/// distance measure.
pub trait BaseMap {
    type Coordinate: Copy + Eq + core::hash::Hash;

    type Distance: Copy;

    /// Returns the coordinates adjacent to `point`.
    fn neighbors(&self, point: Self::Coordinate) -> Vec<Self::Coordinate>;

    /// Returns the distance between two coordinates.
    fn distance(&self, pt0: Self::Coordinate, pt1: Self::Coordinate) -> Self::Distance;
}

/// A `BaseMap` whose tiles carry values of type `T`.
pub trait MapOf<T: Copy>: BaseMap {
    /// Returns the value at `point`, or `None` outside the map.
    fn get(&self, point: Self::Coordinate) -> Option<T>;
}

impl<T: Copy> BaseMap for Grid2D<T> {
    type Coordinate = Point;

    type Distance = i32;

    /// The in-bounds Moore neighbors of `point`.
    fn neighbors(&self, point: Point) -> (r: Vec<Point>)
        ensures
            forall|i: int| 0 <= i < r@.len() ==> self.in_bounds(#[trigger] r@[i]),
    {
        BaseGraph::adjacent_nodes(self, point)
    }

    /// The squared Euclidean distance between two coordinates.
    fn distance(&self, pt0: Point, pt1: Point) -> i32 {
        crate::graph::SpatialGraph::distance(self, pt0, pt1)
    }
}

impl<T: Copy> MapOf<T> for Grid2D<T> {
    fn get(&self, point: Point) -> Option<T> {
        match Grid2D::get(self, point) {
            Some(v) => Some(*v),
            None => None,
        }
    }
}

/// A read-only view of a map that applies a mapping function to the values
/// of an underlying map as they are read.
pub struct MapFunctorView<'a, M, F> {
    /// Reference to the original map.
    pub map: &'a M,
    /// Function that transforms values as they are accessed.
    pub functor: F,
}

impl<'a, M: BaseMap, F> MapFunctorView<'a, M, F> {
    /// Returns the adjacency of the underlying map, unchanged.
    pub fn neighbors(&self, point: M::Coordinate) -> Vec<M::Coordinate> {
        self.map.neighbors(point)
    }

    /// Returns the distance measured by the underlying map.
    pub fn distance(&self, pt0: M::Coordinate, pt1: M::Coordinate) -> M::Distance {
        self.map.distance(pt0, pt1)
    }
}

impl<'a, M, F> MapFunctorView<'a, M, F> {
    /// Returns the mapped value of the given tile, or `None` if the
    /// underlying map has none.
    pub fn get<T: Copy, Tp>(&self, point: M::Coordinate) -> Option<Tp> where
        M: MapOf<T>,
        F: Fn(T) -> Tp,

        requires
            forall|cb: F, t: T| #[trigger] call_requires(cb, (t,)),
    {
        match self.map.get(point) {
            Some(t) => Some((self.functor)(t)),
            None => None,
        }
    }
}

/// Provides a method for wrapping a map in a [`MapFunctorView`].
pub trait TransformableMap<T: Copy>: Sized {
    /// Returns a view of this map whose values are transformed by `functor`.
    fn apply<Tp, F: Fn(T) -> Tp>(&self, functor: F) -> MapFunctorView<'_, Self, F>;
}

impl<T: Copy, M: MapOf<T>> TransformableMap<T> for M {
    fn apply<Tp, F: Fn(T) -> Tp>(&self, functor: F) -> MapFunctorView<'_, Self, F> {
        MapFunctorView { map: self, functor }
    }
}

} // verus!
