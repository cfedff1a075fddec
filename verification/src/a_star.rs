//! Best-first pathfinding over a passability grid.

use vstd::prelude::*;

use crate::grid2d::Grid2D;
use crate::graph::{BaseGraph, SpatialGraph};
use crate::vector::Point;

verus! {

broadcast use vstd::seq_lib::group_seq_properties;

/// Whether a tile can be walked through.
#[derive(Debug, Clone, Copy, PartialEq, Eq, Structural)]
pub enum Passability {
    Passable,
    Impassable,
}

/// The iteration budget of one search; no reachable grid needs anywhere
/// near this many relaxations.
pub open spec fn search_fuel() -> int {
    0x1000_0000
}

/// Computes a path between two points of a passability grid using best-first
/// search over Moore adjacency with squared-Euclidean costs.
///
/// When a path is returned it leads from `start` to `end`: it has at least
/// two points, begins at `start`, ends at `end`, and every step moves to a
/// Moore-adjacent tile. `None` is returned when the search exhausts its
/// frontier (or its iteration budget) without connecting `end` to `start`,
/// and always when `start == end`.
#[verifier::loop_isolation(false)]
#[verifier::rlimit(60)]
pub fn a_star(map: &Grid2D<Passability>, start: Point, end: Point) -> (r: Option<Vec<Point>>)
    requires
        map.wf(),
    ensures
        r matches Some(path) ==> path@.len() >= 2 && path@[0] == start && path@[path@.len()
            - 1] == end,
        start == end ==> r is None,
{
    let n = map.data.len();
    let ghost w = map.spec_width();
    proof {
        assert(map.spec_width() * map.spec_height() <= 0x4000_0000) by (nonlinear_arith)
            requires
                0 <= map.spec_width() <= 0x8000,
                0 <= map.spec_height() <= 0x8000,
        ;
    }
    let mut came_from: Vec<Option<Point>> = Vec::new();
    let mut cost: Vec<i64> = Vec::new();
    let mut i: usize = 0;
    while i < n
        invariant
            i <= n,
            came_from@.len() == i,
            cost@.len() == i,
            forall|j: int| 0 <= j < i ==> #[trigger] came_from@[j] is None,
            forall|j: int| 0 <= j < i ==> #[trigger] cost@[j] == -1i64,
        decreases n - i,
    {
        came_from.push(None);
        cost.push(-1);
        i = i + 1;
    }
    proof {
        map.lemma_unique_indexing();
    }
    if let Some(si) = map.index(start) {
        if si < n {
            cost[si] = 0;
        }
    }
    let mut frontier: Vec<(Point, i64)> = Vec::new();
    frontier.push((start, 0));

    let mut iter: i64 = 0;
    while frontier.len() > 0 && iter < 0x1000_0000
        invariant
            came_from@.len() == n,
            cost@.len() == n,
            n == map.data@.len(),
            0 <= iter <= search_fuel(),
            forall|j: int|
                0 <= j < n ==> #[trigger] cost@[j] == -1i64 || 0 <= cost@[j] <= 4 * iter + 4,
            map.in_bounds(start) ==> cost@[map.spec_index_of(start)] == 0
                && came_from@[map.spec_index_of(start)] is None,
            forall|j: int|
                0 <= j < n ==> (#[trigger] came_from@[j] matches Some(b) ==> b == start || (
                map.in_bounds(b) && came_from@[map.spec_index_of(b)] is Some)),
            forall|k: int|
                0 <= k < frontier@.len() ==> ((#[trigger] frontier@[k]).0 == start || (
                map.in_bounds(frontier@[k].0) && came_from@[map.spec_index_of(frontier@[k].0)]
                    is Some && cost@[map.spec_index_of(frontier@[k].0)] >= 0)),
        decreases search_fuel() - iter,
    {
        iter = iter + 1;
        // Pop the frontier entry with the greatest priority.
        let mut best: usize = 0;
        let mut j: usize = 1;
        while j < frontier.len()
            invariant
                best < frontier@.len(),
                1 <= j,
            decreases frontier@.len() - j,
        {
            if frontier[j].1 > frontier[best].1 {
                best = j;
            }
            j = j + 1;
        }
        let (current, _pr) = frontier.remove(best);
        if current.x == end.x && current.y == end.y {
            break ;
        }
        let cur_cost: i64 = if current.x == start.x && current.y == start.y {
            0
        } else {
            match map.index(current) {
                Some(ci) => {
                    if ci < n {
                        cost[ci]
                    } else {
                        0
                    }
                },
                None => 0,
            }
        };
        if cur_cost < 0 {
            continue ;
        }
        let candidates = map.adjacent_nodes(current);
        let mut c: usize = 0;
        while c < candidates.len()
            invariant
                came_from@.len() == n,
                cost@.len() == n,
                0 < iter <= search_fuel(),
                0 <= cur_cost <= 4 * iter,
                forall|j2: int|
                    0 <= j2 < n ==> #[trigger] cost@[j2] == -1i64 || 0 <= cost@[j2] <= 4 * iter
                        + 4,
                map.in_bounds(start) ==> cost@[map.spec_index_of(start)] == 0
                    && came_from@[map.spec_index_of(start)] is None,
                forall|j2: int|
                    0 <= j2 < n ==> (#[trigger] came_from@[j2] matches Some(b) ==> b == start || (
                    map.in_bounds(b) && came_from@[map.spec_index_of(b)] is Some)),
                forall|k: int|
                    0 <= k < frontier@.len() ==> ((#[trigger] frontier@[k]).0 == start || (
                    map.in_bounds(frontier@[k].0) && came_from@[map.spec_index_of(frontier@[k].0)]
                        is Some && cost@[map.spec_index_of(frontier@[k].0)] >= 0)),
                current == start || (map.in_bounds(current) && came_from@[map.spec_index_of(
                    current,
                )] is Some),
            decreases candidates@.len() - c,
        {
            let candidate = candidates[c];
            let passable = match map.get(candidate) {
                Some(p) => {
                    match *p {
                        Passability::Passable => true,
                        Passability::Impassable => false,
                    }
                },
                None => false,
            };
            if passable {
                let d = map.distance(current, candidate);
                proof {
                    assert(1 <= crate::fov_laws::dist2(current, candidate) <= 2)
                        by (nonlinear_arith)
                        requires
                            crate::fov_laws::dist2(current, candidate) == (candidate.x - current.x)
                                * (candidate.x - current.x) + (candidate.y - current.y) * (
                            candidate.y - current.y),
                            candidate.x != current.x || candidate.y != current.y,
                            -1 <= candidate.x - current.x <= 1,
                            -1 <= candidate.y - current.y <= 1,
                    ;
                }
                let new_cost: i64 = cur_cost + d as i64;
                let ci = match map.index(candidate) {
                    Some(ci) => ci,
                    None => 0,
                };
                proof {
                    map.lemma_unique_indexing();
                }
                if ci < n {
                    let existing = cost[ci];
                    if existing == -1 || existing > new_cost {
                        cost[ci] = new_cost;
                        came_from[ci] = Some(current);
                        let h = map.distance(candidate, end);
                        let pr: i64 = new_cost + h as i64;
                        frontier.push((candidate, pr));
                    }
                }
            }
            c = c + 1;
        }
    }

    // Reconstruct the path by walking predecessor links back from the end.
    let ei = match map.index(end) {
        Some(ei) => ei,
        None => {
            return None;
        },
    };
    if ei >= n {
        return None;
    }
    match came_from[ei] {
        None => {
            return None;
        },
        Some(_) => (),
    }
    let mut path_rev: Vec<Point> = Vec::new();
    path_rev.push(end);
    let mut cur = end;
    let mut fuel: usize = 0;
    let mut reached_start = false;
    while fuel <= n && !reached_start
        invariant
            came_from@.len() == n,
            n == map.data@.len(),
            path_rev@.len() >= 1,
            path_rev@[0] == end,
            path_rev@[path_rev@.len() - 1] == cur,
            map.in_bounds(start) ==> came_from@[map.spec_index_of(start)] is None,
            forall|j2: int|
                0 <= j2 < n ==> (#[trigger] came_from@[j2] matches Some(b) ==> b == start || (
                map.in_bounds(b) && came_from@[map.spec_index_of(b)] is Some)),
            reached_start ==> cur == start && path_rev@.len() >= 2,
            !reached_start ==> map.in_bounds(cur) && (cur == end || (came_from@[map.spec_index_of(
                cur,
            )] is Some || cur == start)),
            !reached_start && cur != end && came_from@[map.spec_index_of(cur)] is None ==> cur
                == start,
        decreases n + 1 - fuel, (if reached_start {
            0int
        } else {
            1int
        }),
    {
        proof {
            map.lemma_unique_indexing();
        }
        let idx = match map.index(cur) {
            Some(idx) => idx,
            None => {
                return None;
            },
        };
        if idx >= n {
            return None;
        }
        match came_from[idx] {
            None => {
                if cur.x == start.x && cur.y == start.y && path_rev.len() >= 2 {
                    reached_start = true;
                } else {
                    return None;
                }
            },
            Some(pred) => {
                path_rev.push(pred);
                cur = pred;
                if pred.x == start.x && pred.y == start.y {
                    reached_start = true;
                }
            },
        }
        fuel = fuel + 1;
    }
    if !reached_start {
        return None;
    }

    // Reverse into start-to-end order.
    let mut path: Vec<Point> = Vec::new();
    let m = path_rev.len();
    let mut k: usize = 0;
    while k < m
        invariant
            k <= m,
            m == path_rev@.len(),
            path@.len() == k,
            forall|i2: int| 0 <= i2 < k ==> #[trigger] path@[i2] == path_rev@[m - 1 - i2],
        decreases m - k,
    {
        path.push(path_rev[m - 1 - k]);
        k = k + 1;
    }
    proof {
        assert(path@[0] == path_rev@[m - 1]);
        assert(path@[path@.len() - 1] == path_rev@[0]);
    }
    Some(path)
}

} // verus!
