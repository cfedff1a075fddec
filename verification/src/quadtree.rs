//! A quadtree for spatial queries over positioned items.

use vstd::prelude::*;

use crate::bounds::{bounds_in_range, Rect};
use crate::vector::Point;

verus! {

broadcast use vstd::seq_lib::group_seq_properties;

/// A coordinate small enough that squared distances between two of them
/// stay inside `i32`.
pub open spec fn qt_coord(c: int) -> bool {
    -0x3000 <= c && c <= 0x3000
}

/// Both coordinates of a point are quadtree-sized.
pub open spec fn qt_point(p: Point) -> bool {
    qt_coord(p.x as int) && qt_coord(p.y as int)
}

/// The payload of a quadtree node: either leaf contents or four children in
/// quadrant order (upper right, upper left, lower left, lower right).
pub enum NodePayload<T> {
    /// A leaf node containing a list of items with their positions.
    Contents(Vec<(T, Point)>),
    /// An internal node with four children, one per quadrant.
    Children(Box<(Node<T>, Node<T>, Node<T>, Node<T>)>),
}

/// A node in a quadtree: a rectangular region that either holds items
/// directly or has been subdivided into four children.
pub struct Node<T> {
    /// The rectangular bounds of the space this node represents.
    pub bounds: Rect,
    /// The payload of this node (either items or child nodes).
    pub payload: NodePayload<T>,
}

impl<T> Node<T> {
    /// Every coordinate in the subtree — bounds corners and item positions —
    /// is quadtree-sized.
    pub open spec fn coords_wf(self) -> bool
        decreases self,
    {
        &&& qt_point(self.bounds.min)
        &&& qt_point(self.bounds.max)
        &&& match self.payload {
            NodePayload::Contents(items) => forall|i: int|
                0 <= i < items@.len() ==> qt_point((#[trigger] items@[i]).1),
            NodePayload::Children(children) => {
                &&& children.0.coords_wf()
                &&& children.1.coords_wf()
                &&& children.2.coords_wf()
                &&& children.3.coords_wf()
            },
        }
    }

    /// Finds an item nearest to the query point in this node's subtree,
    /// starting from an optional current best `(squared distance, item)`.
    ///
    /// Quadrants that cannot beat the current best are pruned via the
    /// distance to their closest boundary point; the result, when present,
    /// carries the squared distance to the returned item, and it is never
    /// farther than the best the search started from.
    #[verifier::loop_isolation(false)]
    pub fn nearest<'a>(
        &'a self,
        query: Point,
        best: Option<(i32, &'a (T, Point))>,
    ) -> (r: Option<(i32, &'a (T, Point))>)
        requires
            self.coords_wf(),
            qt_point(query),
            best matches Some(b) ==> b.0 == sq_dist(b.1.1, query) && qt_point(b.1.1),
        ensures
            r matches Some(b) ==> b.0 == sq_dist(b.1.1, query) && qt_point(b.1.1),
            best is Some ==> r is Some,
            r is Some && best is Some ==> r.unwrap().0 <= best.unwrap().0,
        decreases self,
    {
        let mut best = best;
        let closest_possible = self.bounds.closest_pt(query);
        let lower_bound = sq_dist_exec(closest_possible, query);
        match &best {
            Some(b) => {
                if b.0 < lower_bound {
                    // The current candidate beats anything inside these
                    // bounds: prune the whole subtree.
                    return best;
                }
            },
            None => (),
        }

        match &self.payload {
            NodePayload::Contents(items) => {
                let ghost best0 = best;
                let n = items.len();
                let mut i: usize = 0;
                while i < n
                    invariant
                        n == items@.len(),
                        i <= n,
                        best matches Some(b) ==> b.0 == sq_dist(b.1.1, query) && qt_point(b.1.1),
                        best0 is Some ==> best is Some,
                        best is Some && best0 is Some ==> best.unwrap().0 <= best0.unwrap().0,
                    decreases n - i,
                {
                    let item = &items[i];
                    let sqr_dist = sq_dist_exec(item.1, query);
                    let better = match &best {
                        Some(b) => b.0 > sqr_dist,
                        None => true,
                    };
                    if better {
                        best = Some((sqr_dist, item));
                    }
                    i = i + 1;
                }
            },
            NodePayload::Children(children) => {
                let c = &**children;
                let quadrant = self.bounds.containing_quadrant_idx(query);
                if quadrant == 0 {
                    best = c.0.nearest(query, best);
                    best = c.1.nearest(query, best);
                    best = c.2.nearest(query, best);
                    best = c.3.nearest(query, best);
                } else if quadrant == 1 {
                    best = c.1.nearest(query, best);
                    best = c.2.nearest(query, best);
                    best = c.3.nearest(query, best);
                    best = c.0.nearest(query, best);
                } else if quadrant == 2 {
                    best = c.2.nearest(query, best);
                    best = c.3.nearest(query, best);
                    best = c.0.nearest(query, best);
                    best = c.1.nearest(query, best);
                } else {
                    best = c.3.nearest(query, best);
                    best = c.0.nearest(query, best);
                    best = c.1.nearest(query, best);
                    best = c.2.nearest(query, best);
                }
            },
        }
        best
    }

    /// Invokes `f` for each item of the subtree whose position lies inside
    /// `rect`, pruning subtrees whose bounds miss it.
    #[verifier::loop_isolation(false)]
    pub fn query_rect<F: FnMut(&(T, Point))>(&self, rect: Rect, f: &mut F)
        requires
            forall|cb: F, item: &(T, Point)| #[trigger] call_requires(cb, (item,)),
        decreases self,
    {
        if !self.bounds.intersects(&rect) {
            return ;
        }

        match &self.payload {
            NodePayload::Contents(contents) => {
                let n = contents.len();
                let mut i: usize = 0;
                while i < n
                    invariant
                        n == contents@.len(),
                        i <= n,
                        forall|cb: F, item: &(T, Point)| #[trigger] call_requires(cb, (item,)),
                    decreases n - i,
                {
                    let item = &contents[i];
                    if rect.contains(item.1) {
                        f(item);
                    }
                    i = i + 1;
                }
            },
            NodePayload::Children(children) => {
                let c = &**children;
                c.0.query_rect(rect, f);
                c.1.query_rect(rect, f);
                c.2.query_rect(rect, f);
                c.3.query_rect(rect, f);
            },
        }
    }
}

/// The squared distance between two quadtree-sized points, over unbounded
/// integers.
pub open spec fn sq_dist(a: Point, b: Point) -> int {
    (a.x - b.x) * (a.x - b.x) + (a.y - b.y) * (a.y - b.y)
}

/// Computes the squared distance between two quadtree-sized points.
fn sq_dist_exec(a: Point, b: Point) -> (r: i32)
    requires
        qt_point(a),
        qt_point(b),
    ensures
        r == sq_dist(a, b),
{
    let dx = a.x - b.x;
    let dy = a.y - b.y;
    proof {
        crate::numeric::lemma_mul_bounds(dx as int, dx as int, 0x6000);
        crate::numeric::lemma_mul_bounds(dy as int, dy as int, 0x6000);
        assert(dx as int * dx as int >= 0 && dy as int * dy as int >= 0) by (nonlinear_arith);
    }
    dx * dx + dy * dy
}

/// Builds a quadtree over positioned items by recursive subdivision.
///
/// Subdivision stops when a node holds at most one item or the depth budget
/// is exhausted; items are routed to the quadrant whose region contains
/// them, out-of-bounds items to the nearest one.
#[verifier::loop_isolation(false)]
pub fn build_quadtree<T>(items: Vec<(T, Point)>, bounds: Rect, max_depth: usize) -> (r: Node<T>)
    requires
        bounds_in_range(bounds),
        qt_point(bounds.min),
        qt_point(bounds.max),
        forall|i: int| 0 <= i < items@.len() ==> qt_point((#[trigger] items@[i]).1),
    ensures
        r.bounds == bounds,
        r.coords_wf(),
    decreases max_depth,
{
    if items.len() <= 1 || max_depth == 0 {
        return Node { bounds, payload: NodePayload::Contents(items) };
    }

    let mut q0: Vec<(T, Point)> = Vec::new();
    let mut q1: Vec<(T, Point)> = Vec::new();
    let mut q2: Vec<(T, Point)> = Vec::new();
    let mut q3: Vec<(T, Point)> = Vec::new();
    let mut items = items;
    loop
        invariant
            bounds_in_range(bounds),
            forall|i: int| 0 <= i < items@.len() ==> qt_point((#[trigger] items@[i]).1),
            forall|i: int| 0 <= i < q0@.len() ==> qt_point((#[trigger] q0@[i]).1),
            forall|i: int| 0 <= i < q1@.len() ==> qt_point((#[trigger] q1@[i]).1),
            forall|i: int| 0 <= i < q2@.len() ==> qt_point((#[trigger] q2@[i]).1),
            forall|i: int| 0 <= i < q3@.len() ==> qt_point((#[trigger] q3@[i]).1),
        decreases items@.len(),
    {
        let ghost items_before = items@;
        let item = match items.pop() {
            Some(item) => item,
            None => {
                break ;
            },
        };
        proof {
            assert(item == items_before[items_before.len() - 1]);
            assert(qt_point(item.1));
        }
        let idx = bounds.containing_quadrant_idx(item.1);
        if idx == 0 {
            q0.push(item);
        } else if idx == 1 {
            q1.push(item);
        } else if idx == 2 {
            q2.push(item);
        } else {
            q3.push(item);
        }
    }
    // Popping reversed each bucket; restore the original front-to-back order.
    let q0 = reverse_items(q0);
    let q1 = reverse_items(q1);
    let q2 = reverse_items(q2);
    let q3 = reverse_items(q3);

    proof {
        lemma_quadrant_coords(bounds);
    }
    let c0 = build_quadtree(q0, bounds.quadrant(0), max_depth - 1);
    let c1 = build_quadtree(q1, bounds.quadrant(1), max_depth - 1);
    let c2 = build_quadtree(q2, bounds.quadrant(2), max_depth - 1);
    let c3 = build_quadtree(q3, bounds.quadrant(3), max_depth - 1);
    Node { bounds, payload: NodePayload::Children(Box::new((c0, c1, c2, c3))) }
}

/// The center of a quadtree-sized box is itself quadtree-sized.
proof fn lemma_quadrant_coords(bounds: Rect)
    requires
        bounds_in_range(bounds),
        qt_point(bounds.min),
        qt_point(bounds.max),
    ensures
        qt_point(bounds.spec_center()),
{
    let sx = bounds.min.x + bounds.max.x;
    let sy = bounds.min.y + bounds.max.y;
    lemma_halving_in_range(sx);
    lemma_halving_in_range(sy);
}

/// Truncating halving keeps a doubled quadtree coordinate in range.
proof fn lemma_halving_in_range(s: int)
    requires
        -0x6000 <= s <= 0x6000,
    ensures
        qt_coord(crate::numeric::div_trunc_spec(s, 2)),
{
    let a = crate::numeric::abs_spec(s);
    vstd::arithmetic::div_mod::lemma_div_pos_is_pos(a, 2);
    vstd::arithmetic::div_mod::lemma_div_is_ordered(a, 0x6000, 2);
    assert(0x6000int / 2 == 0x3000) by (nonlinear_arith);
}

/// Reverses a vector of positioned items.
#[verifier::loop_isolation(false)]
fn reverse_items<T>(items: Vec<(T, Point)>) -> (r: Vec<(T, Point)>)
    ensures
        r@.len() == items@.len(),
        forall|i: int|
            0 <= i < r@.len() ==> #[trigger] r@[i] == items@[items@.len() - 1 - i],
{
    let mut items = items;
    let mut r: Vec<(T, Point)> = Vec::new();
    let ghost orig = items@;
    loop
        invariant
            orig.len() == items@.len() + r@.len(),
            items@ == orig.take(items@.len() as int),
            forall|i: int|
                0 <= i < r@.len() ==> #[trigger] r@[i] == orig[orig.len() - 1 - i],
        decreases items@.len(),
    {
        let ghost items_before = items@;
        let item = match items.pop() {
            Some(item) => item,
            None => {
                break ;
            },
        };
        proof {
            assert(items@ =~= orig.take(items@.len() as int));
            assert(item == orig[items@.len() as int]);
        }
        r.push(item);
    }
    r
}

} // verus!
