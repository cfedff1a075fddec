//! Small numeric abstractions: identity-element traits and exact truncating
//! division on machine integers.

use vstd::prelude::*;

verus! {

/// A trait representing a numeric type with a value equivalent to zero.
pub trait HasZero {
    fn zero() -> Self where Self: Sized;
}

/// A trait representing a numeric type with a value equivalent to one.
pub trait HasOne {
    fn one() -> Self where Self: Sized;
}

impl HasZero for u8 {
    fn zero() -> (r: u8)
        ensures
            r == 0u8,
    {
        0
    }
}

impl HasZero for i8 {
    fn zero() -> (r: i8)
        ensures
            r == 0i8,
    {
        0
    }
}

impl HasZero for u16 {
    fn zero() -> (r: u16)
        ensures
            r == 0u16,
    {
        0
    }
}

impl HasZero for i16 {
    fn zero() -> (r: i16)
        ensures
            r == 0i16,
    {
        0
    }
}

impl HasZero for u32 {
    fn zero() -> (r: u32)
        ensures
            r == 0u32,
    {
        0
    }
}

impl HasZero for i32 {
    fn zero() -> (r: i32)
        ensures
            r == 0i32,
    {
        0
    }
}

impl HasZero for u64 {
    fn zero() -> (r: u64)
        ensures
            r == 0u64,
    {
        0
    }
}

impl HasZero for i64 {
    fn zero() -> (r: i64)
        ensures
            r == 0i64,
    {
        0
    }
}

impl HasZero for usize {
    fn zero() -> (r: usize)
        ensures
            r == 0usize,
    {
        0
    }
}

impl HasZero for isize {
    fn zero() -> (r: isize)
        ensures
            r == 0isize,
    {
        0
    }
}

impl HasOne for u8 {
    fn one() -> (r: u8)
        ensures
            r == 1u8,
    {
        1
    }
}

impl HasOne for i8 {
    fn one() -> (r: i8)
        ensures
            r == 1i8,
    {
        1
    }
}

impl HasOne for u16 {
    fn one() -> (r: u16)
        ensures
            r == 1u16,
    {
        1
    }
}

impl HasOne for i16 {
    fn one() -> (r: i16)
        ensures
            r == 1i16,
    {
        1
    }
}

impl HasOne for u32 {
    fn one() -> (r: u32)
        ensures
            r == 1u32,
    {
        1
    }
}

impl HasOne for i32 {
    fn one() -> (r: i32)
        ensures
            r == 1i32,
    {
        1
    }
}

impl HasOne for u64 {
    fn one() -> (r: u64)
        ensures
            r == 1u64,
    {
        1
    }
}

impl HasOne for i64 {
    fn one() -> (r: i64)
        ensures
            r == 1i64,
    {
        1
    }
}

impl HasOne for usize {
    fn one() -> (r: usize)
        ensures
            r == 1usize,
    {
        1
    }
}

impl HasOne for isize {
    fn one() -> (r: isize)
        ensures
            r == 1isize,
    {
        1
    }
}

/// A trait for types that support both addition and multiplication.
pub trait Ring: std::ops::Add<Self, Output = Self> + std::ops::Mul<Self, Output = Self> + Sized {

}

impl<T: std::ops::Add<Self, Output = Self> + std::ops::Mul<Self, Output = Self>> Ring for T {

}

/// A product of two integers bounded in magnitude by `m` is bounded in
/// magnitude by `m * m`.
pub proof fn lemma_mul_bounds(a: int, b: int, m: int)
    by (nonlinear_arith)
    requires
        m >= 0,
        -m <= a <= m,
        -m <= b <= m,
    ensures
        -(m * m) <= a * b <= m * m,
{
}

/// Division truncated toward zero, the semantics of Rust's `/` on signed
/// integers, stated over unbounded integers.
pub open spec fn div_trunc_spec(a: int, b: int) -> int {
    let q = abs_spec(a) / abs_spec(b);
    if (a < 0) != (b < 0) {
        -q
    } else {
        q
    }
}

/// The absolute value of an unbounded integer.
pub open spec fn abs_spec(a: int) -> int {
    if a < 0 {
        -a
    } else {
        a
    }
}

/// Quotient of `lhs` and `rhs` truncated toward zero.
pub fn div_trunc(lhs: i32, rhs: i32) -> (r: i32)
    requires
        rhs != 0,
        !(lhs == i32::MIN && rhs == -1),
    ensures
        r == div_trunc_spec(lhs as int, rhs as int),
{
    let a: u64 = if lhs < 0 {
        (-(lhs as i64)) as u64
    } else {
        lhs as u64
    };
    let b: u64 = if rhs < 0 {
        (-(rhs as i64)) as u64
    } else {
        rhs as u64
    };
    let q: u64 = a / b;
    proof {
        assert(a as int == abs_spec(lhs as int));
        assert(b as int == abs_spec(rhs as int));
        vstd::arithmetic::div_mod::lemma_div_pos_is_pos(a as int, b as int);
        vstd::arithmetic::div_mod::lemma_div_nonincreasing(a as int, b as int);
        if a == 0x8000_0000u64 && (lhs >= 0) == (rhs >= 0) {
            assert(b as int >= 2);
            vstd::arithmetic::div_mod::lemma_div_is_ordered_by_denominator(
                a as int,
                2,
                b as int,
            );
            assert(0x8000_0000int / 2 == 0x4000_0000) by (nonlinear_arith);
        }
        assert(q as int == abs_spec(lhs as int) / abs_spec(rhs as int));
    }
    if (lhs < 0) != (rhs < 0) {
        (-(q as i64)) as i32
    } else {
        q as i32
    }
}

} // verus!
