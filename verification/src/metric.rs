//! Distance metrics over integer coordinate vectors of any dimension.

use vstd::prelude::*;

verus! {

/// A component of a metric argument vector, small enough that sums of a few
/// squared components stay inside `i32`.
pub open spec fn metric_coord(c: int) -> bool {
    -0x4000 <= c && c <= 0x4000
}

/// All components of a metric argument are in range.
pub open spec fn metric_vec_wf(v: Seq<i32>) -> bool {
    forall|i: int| 0 <= i < v.len() ==> metric_coord(#[trigger] v[i] as int)
}

/// The sum of `|l - r|` over the zipped components of two vectors, counting
/// only the first `n` positions.
pub open spec fn manhattan_sum(lhs: Seq<i32>, rhs: Seq<i32>, n: int) -> int
    decreases n,
{
    if n <= 0 {
        0
    } else {
        manhattan_sum(lhs, rhs, n - 1) + crate::numeric::abs_spec(lhs[n - 1] - rhs[n - 1])
    }
}

/// The largest `|l - r|` over the first `n` zipped components.
pub open spec fn chebyshev_max(lhs: Seq<i32>, rhs: Seq<i32>, n: int) -> int
    decreases n,
{
    if n <= 0 {
        0
    } else {
        let d = crate::numeric::abs_spec(lhs[n - 1] - rhs[n - 1]);
        let rest = chebyshev_max(lhs, rhs, n - 1);
        if d > rest {
            d
        } else {
            rest
        }
    }
}

/// The sum of `(l - r)^2` over the first `n` zipped components.
pub open spec fn sqr_dist_sum(lhs: Seq<i32>, rhs: Seq<i32>, n: int) -> int
    decreases n,
{
    if n <= 0 {
        0
    } else {
        sqr_dist_sum(lhs, rhs, n - 1) + (lhs[n - 1] - rhs[n - 1]) * (lhs[n - 1] - rhs[n - 1])
    }
}

/// Partial squared-distance sums only grow as more components are counted.
proof fn lemma_sqr_dist_sum_mono(lhs: Seq<i32>, rhs: Seq<i32>, i: int, n: int)
    requires
        0 <= i <= n,
    ensures
        sqr_dist_sum(lhs, rhs, i) <= sqr_dist_sum(lhs, rhs, n),
    decreases n,
{
    if n > i {
        lemma_sqr_dist_sum_mono(lhs, rhs, i, n - 1);
        assert((lhs[n - 1] - rhs[n - 1]) * (lhs[n - 1] - rhs[n - 1]) >= 0) by (nonlinear_arith);
    }
}

/// A rule for measuring the distance between two coordinate vectors; the
/// vectors are zipped, so only the common prefix counts.
pub trait VectorMetric {
    /// The distance this metric assigns, as a mathematical function of the
    /// zipped components.
    spec fn spec_distance(&self, lhs: Seq<i32>, rhs: Seq<i32>) -> int;

    /// Returns the distance between two vectors.
    fn distance(&self, lhs: Vec<i32>, rhs: Vec<i32>) -> (r: i32)
        requires
            metric_vec_wf(lhs@),
            metric_vec_wf(rhs@),
            lhs@.len() <= 0x1000,
            rhs@.len() <= 0x1000,
        ensures
            r == self.spec_distance(lhs@, rhs@),
    ;
}

/// The taxicab metric: distances add up along axes.
pub struct Manhattan;

/// The chessboard metric: the largest axis distance wins.
pub struct Chebyshev;

/// The straight-line metric. Its exact value needs a square root, which
/// integer vectors cannot carry, so only the squared, order-preserving form
/// is offered.
pub struct Euclidean;

/// The number of zipped positions of two vectors.
pub open spec fn zip_len(lhs: Seq<i32>, rhs: Seq<i32>) -> int {
    if lhs.len() <= rhs.len() {
        lhs.len() as int
    } else {
        rhs.len() as int
    }
}

impl VectorMetric for Manhattan {
    open spec fn spec_distance(&self, lhs: Seq<i32>, rhs: Seq<i32>) -> int {
        manhattan_sum(lhs, rhs, zip_len(lhs, rhs))
    }

    #[verifier::loop_isolation(false)]
    fn distance(&self, lhs: Vec<i32>, rhs: Vec<i32>) -> (r: i32) {
        let n = if lhs.len() <= rhs.len() {
            lhs.len()
        } else {
            rhs.len()
        };
        let mut acc: i32 = 0;
        let mut i: usize = 0;
        while i < n
            invariant
                i <= n,
                acc == manhattan_sum(lhs@, rhs@, i as int),
                0 <= acc <= i * 0x8000,
            decreases n - i,
        {
            let d = if lhs[i] >= rhs[i] {
                lhs[i] - rhs[i]
            } else {
                rhs[i] - lhs[i]
            };
            proof {
                assert(i * 0x8000 + 0x8000 == (i + 1) * 0x8000) by (nonlinear_arith);
                assert((i + 1) * 0x8000 <= 0x1000 * 0x8000) by (nonlinear_arith)
                    requires
                        i + 1 <= 0x1000,
                ;
            }
            acc = acc + d;
            i = i + 1;
        }
        acc
    }
}

impl VectorMetric for Chebyshev {
    open spec fn spec_distance(&self, lhs: Seq<i32>, rhs: Seq<i32>) -> int {
        chebyshev_max(lhs, rhs, zip_len(lhs, rhs))
    }

    #[verifier::loop_isolation(false)]
    fn distance(&self, lhs: Vec<i32>, rhs: Vec<i32>) -> (r: i32) {
        let n = if lhs.len() <= rhs.len() {
            lhs.len()
        } else {
            rhs.len()
        };
        let mut acc: i32 = 0;
        let mut i: usize = 0;
        while i < n
            invariant
                i <= n,
                acc == chebyshev_max(lhs@, rhs@, i as int),
                0 <= acc <= 0x8000,
            decreases n - i,
        {
            let d = if lhs[i] >= rhs[i] {
                lhs[i] - rhs[i]
            } else {
                rhs[i] - lhs[i]
            };
            if d > acc {
                acc = d;
            }
            i = i + 1;
        }
        acc
    }
}

impl Euclidean {
    /// Returns the squared Euclidean distance between two vectors: a
    /// monotonically increasing function of the true distance, useful for
    /// fast comparisons.
    #[verifier::loop_isolation(false)]
    pub fn distance_fast_monotonic(&self, lhs: Vec<i32>, rhs: Vec<i32>) -> (r: i32)
        requires
            metric_vec_wf(lhs@),
            metric_vec_wf(rhs@),
            lhs@.len() <= 0x1000,
            rhs@.len() <= 0x1000,
            sqr_dist_sum(lhs@, rhs@, zip_len(lhs@, rhs@)) <= i32::MAX,
        ensures
            r == sqr_dist_sum(lhs@, rhs@, zip_len(lhs@, rhs@)),
    {
        let n = if lhs.len() <= rhs.len() {
            lhs.len()
        } else {
            rhs.len()
        };
        let mut acc: i64 = 0;
        let mut i: usize = 0;
        while i < n
            invariant
                i <= n,
                acc == sqr_dist_sum(lhs@, rhs@, i as int),
                0 <= acc <= i * 0x4000_0000,
            decreases n - i,
        {
            let d: i64 = lhs[i] as i64 - rhs[i] as i64;
            proof {
                crate::numeric::lemma_mul_bounds(d as int, d as int, 0x8000);
                assert(d as int * d as int >= 0) by (nonlinear_arith);
                assert((lhs@[i as int] - rhs@[i as int]) * (lhs@[i as int] - rhs@[i as int])
                    == d as int * d as int) by (nonlinear_arith)
                    requires
                        d == lhs@[i as int] - rhs@[i as int],
                ;
                assert(i * 0x4000_0000 + 0x4000_0000 == (i + 1) * 0x4000_0000)
                    by (nonlinear_arith);
                assert((i + 1) * 0x4000_0000 <= 0x1000 * 0x4000_0000) by (nonlinear_arith)
                    requires
                        i + 1 <= 0x1000,
                ;
            }
            acc = acc + d * d;
            i = i + 1;
        }
        proof {
            lemma_sqr_dist_sum_mono(lhs@, rhs@, i as int, zip_len(lhs@, rhs@));
        }
        acc as i32
    }
}

} // verus!
