//! Graph abstractions over tile maps: adjacency, labels and distances.
//!
//! These traits carry no contracts of their own — they are the extension
//! points users implement for custom maps. The verified algorithms in this
//! crate work over [`crate::grid2d::Grid2D`], whose implementations below
//! are specified precisely.

use vstd::prelude::*;

use crate::grid2d::Grid2D;
use crate::neighborhood::MooreNeighbor;
use crate::vector::Point;

verus! {

broadcast use vstd::seq_lib::group_seq_properties;

/// A graph data structure where nodes are identified by `NodeHandle`s.
pub trait BaseGraph {
    type NodeHandle: Copy + Eq + core::hash::Hash;

    /// Returns a vector of all nodes that are adjacent to the given node.
    fn adjacent_nodes(&self, point: Self::NodeHandle) -> Vec<Self::NodeHandle>;
}

/// A `BaseGraph` that also associates a label of type `Label` with each
/// node.
pub trait LabeledGraph<Label: Copy>: BaseGraph {
    /// Returns the label associated with the given node, if it has one.
    fn get(&self, point: Self::NodeHandle) -> Option<Label>;
}

/// A graph in which distances can be measured between pairs of nodes.
pub trait SpatialGraph: BaseGraph {
    type Distance: Copy;

    /// Returns the distance between two nodes in the graph.
    fn distance(
        &self,
        pt0: <Self as BaseGraph>::NodeHandle,
        pt1: <Self as BaseGraph>::NodeHandle,
    ) -> Self::Distance;
}

/// A `SpatialGraph` with an associated labeling, mapping each node to a
/// value of type `T`.
pub trait LabeledSpatialGraph<T: Copy>: SpatialGraph + LabeledGraph<T> {

}

impl<T: Copy, G: SpatialGraph + LabeledGraph<T>> LabeledSpatialGraph<T> for G {

}

/// A read-only view of a graph that applies a mapping function to the labels
/// of an underlying graph as they are read.
pub struct GraphFunctorView<'a, Graph, F> {
    /// Reference to the original graph.
    pub graph: &'a Graph,
    /// Function that transforms labels as they are accessed.
    pub functor: F,
}

impl<'a, Graph: BaseGraph, F> GraphFunctorView<'a, Graph, F> {
    /// Returns the adjacency of the underlying graph, unchanged.
    pub fn adjacent_nodes(&self, point: Graph::NodeHandle) -> Vec<Graph::NodeHandle> {
        self.graph.adjacent_nodes(point)
    }
}

impl<'a, Graph, F> GraphFunctorView<'a, Graph, F> {
    /// Returns the mapped label of the given node, or `None` if the
    /// underlying graph has none.
    pub fn get<T: Copy, Tp>(&self, point: Graph::NodeHandle) -> Option<Tp> where
        Graph: LabeledGraph<T>,
        F: Fn(T) -> Tp,

        requires
            forall|cb: F, t: T| #[trigger] call_requires(cb, (t,)),
    {
        match self.graph.get(point) {
            Some(t) => Some((self.functor)(t)),
            None => None,
        }
    }
}

/// Provides a method for wrapping a labeled graph in a
/// [`GraphFunctorView`] that applies a functor to each label as it is
/// accessed.
pub trait TransformableGraph<T: Copy>: Sized {
    /// Returns a view of this graph whose labels are transformed by
    /// `functor`.
    fn apply<Tp, F: Fn(T) -> Tp>(&self, functor: F) -> GraphFunctorView<'_, Self, F>;
}

impl<T: Copy, Graph: LabeledGraph<T>> TransformableGraph<T> for Graph {
    fn apply<Tp, F: Fn(T) -> Tp>(&self, functor: F) -> GraphFunctorView<'_, Self, F> {
        GraphFunctorView { graph: self, functor }
    }
}

impl<T> BaseGraph for Grid2D<T> {
    type NodeHandle = Point;

    /// The Moore neighbors of `point` that lie inside the grid, in neighbor
    /// enumeration order.
    fn adjacent_nodes(&self, point: Point) -> (r: Vec<Point>)
        ensures
            forall|i: int|
                0 <= i < r@.len() ==> self.in_bounds(#[trigger] r@[i]) && r@[i] != point && point.x
                    - 1 <= r@[i].x <= point.x + 1 && point.y - 1 <= r@[i].y <= point.y + 1,
    {
        let neighbors = MooreNeighbor::all();
        let mut res: Vec<Point> = Vec::new();
        let mut i: usize = 0;
        while i < neighbors.len()
            invariant
                forall|j: int|
                    0 <= j < res@.len() ==> self.in_bounds(#[trigger] res@[j]) && res@[j] != point
                        && point.x - 1 <= res@[j].x <= point.x + 1 && point.y - 1 <= res@[j].y
                        <= point.y + 1,
            decreases neighbors@.len() - i,
        {
            let off = neighbors[i].offset();
            let nx = point.x as i64 + off.x as i64;
            let ny = point.y as i64 + off.y as i64;
            if nx >= i32::MIN as i64 && nx <= i32::MAX as i64 && ny >= i32::MIN as i64 && ny
                <= i32::MAX as i64 {
                let pt = Point { x: nx as i32, y: ny as i32 };
                if self.index(pt).is_some() {
                    if pt.x >= 0 && pt.x < self.width() && pt.y >= 0 && pt.y < self.height() {
                        res.push(pt);
                    }
                }
            }
            i = i + 1;
        }
        res
    }
}

impl<T: Copy> SpatialGraph for Grid2D<T> {
    type Distance = i32;

    /// The squared Euclidean distance between two grid nodes; wraps for
    /// points whose squared distance exceeds `i32`.
    fn distance(&self, pt0: Point, pt1: Point) -> (r: i32)
        ensures
            crate::fov_laws::dist2(pt0, pt1) <= i32::MAX && -0x4000_0000 <= pt1.x - pt0.x
                <= 0x4000_0000 && -0x4000_0000 <= pt1.y - pt0.y <= 0x4000_0000 ==> r
                == crate::fov_laws::dist2(pt0, pt1),
    {
        let dx = pt1.x as i128 - pt0.x as i128;
        let dy = pt1.y as i128 - pt0.y as i128;
        proof {
            crate::numeric::lemma_mul_bounds(dx as int, dx as int, 0x1_0000_0000);
            crate::numeric::lemma_mul_bounds(dy as int, dy as int, 0x1_0000_0000);
            assert(dx * dx >= 0 && dy * dy >= 0) by (nonlinear_arith);
        }
        #[verifier::truncate]
        let r = (dx * dx + dy * dy) as i32;
        r
    }
}

impl<T: Copy> LabeledGraph<T> for Grid2D<T> {
    /// The stored label at `point`, or `None` outside the grid.
    fn get(&self, point: Point) -> Option<T> {
        match Grid2D::get(self, point) {
            Some(v) => Some(*v),
            None => None,
        }
    }
}

} // verus!
