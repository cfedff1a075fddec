//! 2x2 integer matrices used as coordinate transforms.

use vstd::prelude::*;

use crate::vector::{coord_in_range, Vector2};

verus! {

/// A 2x2 matrix with integer elements, stored as a pair of columns.
#[derive(Debug, Clone, Copy, PartialEq, Eq, Structural)]
pub struct Mat2 {
    pub col1: Vector2,
    pub col2: Vector2,
}

impl Mat2 {
    /// Creates a `Mat2` from a pair of columns.
    pub fn from_cols(col1: Vector2, col2: Vector2) -> (r: Mat2)
        ensures
            r.col1 == col1,
            r.col2 == col2,
    {
        Mat2 { col1, col2 }
    }

    /// Creates a `Mat2` from a pair of rows.
    pub fn from_rows(row1: Vector2, row2: Vector2) -> (r: Mat2)
        ensures
            r.col1 == (Vector2 { x: row1.x, y: row2.x }),
            r.col2 == (Vector2 { x: row1.y, y: row2.y }),
    {
        (Mat2 { col1: row1, col2: row2 }).transpose()
    }

    /// Creates a `Mat2` from a row-major sequence of 4 elements.
    pub fn row_major(xx: i32, xy: i32, yx: i32, yy: i32) -> (r: Mat2)
        ensures
            r.col1 == (Vector2 { x: xx, y: yx }),
            r.col2 == (Vector2 { x: xy, y: yy }),
    {
        Mat2 { col1: Vector2 { x: xx, y: yx }, col2: Vector2 { x: xy, y: yy } }
    }

    /// Creates a `Mat2` from a column-major sequence of 4 elements.
    pub fn col_major(xx: i32, yx: i32, xy: i32, yy: i32) -> (r: Mat2)
        ensures
            r.col1 == (Vector2 { x: xx, y: yx }),
            r.col2 == (Vector2 { x: xy, y: yy }),
    {
        Mat2 { col1: Vector2 { x: xx, y: yx }, col2: Vector2 { x: xy, y: yy } }
    }

    /// Returns the transpose of this matrix.
    pub fn transpose(&self) -> (r: Mat2)
        ensures
            r.col1 == (Vector2 { x: self.col1.x, y: self.col2.x }),
            r.col2 == (Vector2 { x: self.col1.y, y: self.col2.y }),
    {
        Mat2 {
            col1: Vector2 { x: self.col1.x, y: self.col2.x },
            col2: Vector2 { x: self.col1.y, y: self.col2.y },
        }
    }

    /// Returns a `Mat2` with all zero elements.
    pub fn zero() -> (r: Mat2)
        ensures
            r == (Mat2 { col1: Vector2 { x: 0, y: 0 }, col2: Vector2 { x: 0, y: 0 } }),
    {
        Mat2 { col1: Vector2 { x: 0, y: 0 }, col2: Vector2 { x: 0, y: 0 } }
    }

    /// Returns an identity matrix.
    pub fn ident() -> (r: Mat2)
        ensures
            r == (Mat2 { col1: Vector2 { x: 1, y: 0 }, col2: Vector2 { x: 0, y: 1 } }),
    {
        Mat2 { col1: Vector2 { x: 1, y: 0 }, col2: Vector2 { x: 0, y: 1 } }
    }

    /// The mathematical determinant, as an unbounded integer.
    pub open spec fn spec_det(self) -> int {
        self.col1.x * self.col2.y - self.col2.x * self.col1.y
    }

    /// Returns the determinant of this matrix.
    pub fn det(&self) -> (r: i32)
        requires
            coord_in_range(self.col1.x as int),
            coord_in_range(self.col1.y as int),
            coord_in_range(self.col2.x as int),
            coord_in_range(self.col2.y as int),
            i32::MIN <= self.spec_det() <= i32::MAX,
        ensures
            r == self.spec_det(),
    {
        let a = self.col1.x as i64;
        let b = self.col2.x as i64;
        let c = self.col1.y as i64;
        let d = self.col2.y as i64;
        proof {
            crate::numeric::lemma_mul_bounds(a as int, d as int, 0x4000_0000);
            crate::numeric::lemma_mul_bounds(b as int, c as int, 0x4000_0000);
        }
        (a * d - b * c) as i32
    }

    /// The mathematical matrix-vector product, componentwise over unbounded integers.
    pub open spec fn spec_mul_vec(self, rhs: Vector2) -> (int, int) {
        (
            self.col1.x * rhs.x + self.col2.x * rhs.y,
            self.col1.y * rhs.x + self.col2.y * rhs.y,
        )
    }

    /// Returns the inverse of this matrix scaled entrywise by truncating integer
    /// division with the determinant, or `None` when the determinant is zero.
    pub fn inverse(&self) -> (r: Option<Mat2>)
        requires
            coord_in_range(self.col1.x as int),
            coord_in_range(self.col1.y as int),
            coord_in_range(self.col2.x as int),
            coord_in_range(self.col2.y as int),
            i32::MIN <= self.spec_det() <= i32::MAX,
        ensures
            self.spec_det() == 0 <==> r is None,
            r matches Some(m) ==> {
                let det = self.spec_det();
                &&& m.col1.x == crate::numeric::div_trunc_spec(self.col2.y as int, det)
                &&& m.col2.x == crate::numeric::div_trunc_spec(0 - self.col2.x as int, det)
                &&& m.col1.y == crate::numeric::div_trunc_spec(0 - self.col1.y as int, det)
                &&& m.col2.y == crate::numeric::div_trunc_spec(self.col1.x as int, det)
            },
    {
        let determinant = self.det();
        if determinant == 0 {
            None
        } else {
            Some(
                Mat2 {
                    col1: Vector2 {
                        x: crate::numeric::div_trunc(self.col2.y, determinant),
                        y: crate::numeric::div_trunc(0i32 - self.col1.y, determinant),
                    },
                    col2: Vector2 {
                        x: crate::numeric::div_trunc(0i32 - self.col2.x, determinant),
                        y: crate::numeric::div_trunc(self.col1.x, determinant),
                    },
                },
            )
        }
    }
}

impl std::ops::Mul<Vector2> for Mat2 {
    type Output = Vector2;

    fn mul(self, rhs: Vector2) -> (r: Vector2) {
        proof {
            crate::numeric::lemma_mul_bounds(self.col1.x as int, rhs.x as int, 0x4000_0000);
            crate::numeric::lemma_mul_bounds(self.col2.x as int, rhs.y as int, 0x4000_0000);
            crate::numeric::lemma_mul_bounds(self.col1.y as int, rhs.x as int, 0x4000_0000);
            crate::numeric::lemma_mul_bounds(self.col2.y as int, rhs.y as int, 0x4000_0000);
        }
        let x = self.col1.x as i64 * rhs.x as i64 + self.col2.x as i64 * rhs.y as i64;
        let y = self.col1.y as i64 * rhs.x as i64 + self.col2.y as i64 * rhs.y as i64;
        Vector2 { x: x as i32, y: y as i32 }
    }
}

impl vstd::std_specs::ops::MulSpecImpl<Vector2> for Mat2 {
    open spec fn obeys_mul_spec() -> bool {
        true
    }

    open spec fn mul_req(self, rhs: Vector2) -> bool {
        &&& i32::MIN <= self.col1.x * rhs.x + self.col2.x * rhs.y <= i32::MAX
        &&& i32::MIN <= self.col1.y * rhs.x + self.col2.y * rhs.y <= i32::MAX
        &&& coord_in_range(self.col1.x as int)
        &&& coord_in_range(self.col1.y as int)
        &&& coord_in_range(self.col2.x as int)
        &&& coord_in_range(self.col2.y as int)
        &&& coord_in_range(rhs.x as int)
        &&& coord_in_range(rhs.y as int)
    }

    open spec fn mul_spec(self, rhs: Vector2) -> Vector2 {
        Vector2 {
            x: (self.col1.x * rhs.x + self.col2.x * rhs.y) as i32,
            y: (self.col1.y * rhs.x + self.col2.y * rhs.y) as i32,
        }
    }
}

impl std::ops::Mul<i32> for Mat2 {
    type Output = Mat2;

    fn mul(self, rhs: i32) -> (r: Mat2) {
        Mat2 { col1: self.col1 * rhs, col2: self.col2 * rhs }
    }
}

impl vstd::std_specs::ops::MulSpecImpl<i32> for Mat2 {
    open spec fn obeys_mul_spec() -> bool {
        true
    }

    open spec fn mul_req(self, rhs: i32) -> bool {
        &&& i32::MIN <= self.col1.x * rhs <= i32::MAX
        &&& i32::MIN <= self.col1.y * rhs <= i32::MAX
        &&& i32::MIN <= self.col2.x * rhs <= i32::MAX
        &&& i32::MIN <= self.col2.y * rhs <= i32::MAX
    }

    open spec fn mul_spec(self, rhs: i32) -> Mat2 {
        Mat2 {
            col1: Vector2 { x: (self.col1.x * rhs) as i32, y: (self.col1.y * rhs) as i32 },
            col2: Vector2 { x: (self.col2.x * rhs) as i32, y: (self.col2.y * rhs) as i32 },
        }
    }
}

impl Default for Mat2 {
    fn default() -> (r: Mat2)
        ensures
            r == (Mat2 { col1: Vector2 { x: 0, y: 0 }, col2: Vector2 { x: 0, y: 0 } }),
    {
        Mat2 { col1: Vector2 { x: 0, y: 0 }, col2: Vector2 { x: 0, y: 0 } }
    }
}

} // verus!
