//! The eight coordinate transforms that map the canonical scan octant onto
//! the rest of the plane.

use vstd::prelude::*;

use crate::matrix::Mat2;
use crate::vector::Vector2;

verus! {

/// The fixed matrix for a given octant index.
///
/// Octant 0 is the identity; the others are the rotation/reflection
/// combinations that carry octant 0 onto each of the remaining 45-degree
/// wedges around the origin.
pub open spec fn spec_octant_transform(octant: int) -> Mat2 {
    if octant == 0 {
        Mat2 { col1: Vector2 { x: 1, y: 0 }, col2: Vector2 { x: 0, y: 1 } }
    } else if octant == 1 {
        Mat2 { col1: Vector2 { x: 0, y: 1 }, col2: Vector2 { x: 1, y: 0 } }
    } else if octant == 2 {
        Mat2 { col1: Vector2 { x: 0, y: 1 }, col2: Vector2 { x: -1i32, y: 0 } }
    } else if octant == 3 {
        Mat2 { col1: Vector2 { x: -1i32, y: 0 }, col2: Vector2 { x: 0, y: 1 } }
    } else if octant == 4 {
        Mat2 { col1: Vector2 { x: -1i32, y: 0 }, col2: Vector2 { x: 0, y: -1i32 } }
    } else if octant == 5 {
        Mat2 { col1: Vector2 { x: 0, y: -1i32 }, col2: Vector2 { x: -1i32, y: 0 } }
    } else if octant == 6 {
        Mat2 { col1: Vector2 { x: 0, y: -1i32 }, col2: Vector2 { x: 1, y: 0 } }
    } else {
        Mat2 { col1: Vector2 { x: 1, y: 0 }, col2: Vector2 { x: 0, y: -1i32 } }
    }
}

/// Whether a matrix is one of the eight octant transforms: each column is a
/// signed unit vector and the two columns span perpendicular axes.
pub open spec fn is_octant_matrix(t: Mat2) -> bool {
    exists|k: int| 0 <= k < 8 && t == spec_octant_transform(k)
}

/// Every entry of an octant matrix is -1, 0 or 1.
pub proof fn lemma_octant_entry_bounds(t: Mat2)
    requires
        is_octant_matrix(t),
    ensures
        -1 <= t.col1.x as int <= 1,
        -1 <= t.col1.y as int <= 1,
        -1 <= t.col2.x as int <= 1,
        -1 <= t.col2.y as int <= 1,
{
    let k = choose|k: int| 0 <= k < 8 && t == spec_octant_transform(k);
}

/// The columns of an octant matrix are orthogonal signed unit vectors, so
/// applying it to a vector preserves the squared Euclidean norm.
pub proof fn lemma_octant_orthonormal(t: Mat2)
    requires
        is_octant_matrix(t),
    ensures
        t.col1.x * t.col1.x + t.col1.y * t.col1.y == 1,
        t.col2.x * t.col2.x + t.col2.y * t.col2.y == 1,
        t.col1.x * t.col2.x + t.col1.y * t.col2.y == 0,
{
    let k = choose|k: int| 0 <= k < 8 && t == spec_octant_transform(k);
    let a = t.col1.x as int;
    let b = t.col1.y as int;
    let c = t.col2.x as int;
    let d = t.col2.y as int;
    assert((a == 1 && b == 0 && c == 0 && d == 1) || (a == 0 && b == 1 && c == 1 && d == 0) || (a
        == 0 && b == 1 && c == -1 && d == 0) || (a == -1 && b == 0 && c == 0 && d == 1) || (a == -1
        && b == 0 && c == 0 && d == -1) || (a == 0 && b == -1 && c == -1 && d == 0) || (a == 0 && b
        == -1 && c == 1 && d == 0) || (a == 1 && b == 0 && c == 0 && d == -1));
    assert(a * a + b * b == 1 && c * c + d * d == 1 && a * c + b * d == 0) by (nonlinear_arith)
        requires
            (a == 1 && b == 0 && c == 0 && d == 1) || (a == 0 && b == 1 && c == 1 && d == 0) || (a
                == 0 && b == 1 && c == -1 && d == 0) || (a == -1 && b == 0 && c == 0 && d == 1) || (
            a == -1 && b == 0 && c == 0 && d == -1) || (a == 0 && b == -1 && c == -1 && d == 0) || (
            a == 0 && b == -1 && c == 1 && d == 0) || (a == 1 && b == 0 && c == 0 && d == -1),
    ;
}

/// Returns the transformation matrix for the given octant.
///
/// `octant` must be in `0..=7`; the public scan entry points only ever pass
/// indices in that range.
pub fn octant_transform(octant: u32) -> (r: Mat2)
    requires
        octant < 8,
    ensures
        r == spec_octant_transform(octant as int),
        is_octant_matrix(r),
{
    let r = match octant {
        0 => Mat2::ident(),
        1 => Mat2::row_major(0, 1, 1, 0),
        2 => Mat2::row_major(0, -1, 1, 0),
        3 => Mat2::row_major(-1, 0, 0, 1),
        4 => Mat2::row_major(-1, 0, 0, -1),
        5 => Mat2::row_major(0, -1, -1, 0),
        6 => Mat2::row_major(0, 1, -1, 0),
        _ => Mat2::row_major(1, 0, 0, -1),
    };
    proof {
        assert(is_octant_matrix(r)) by {
            assert(r == spec_octant_transform(octant as int));
        }
    }
    r
}

} // verus!
