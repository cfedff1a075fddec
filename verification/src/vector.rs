//! 2D integer vectors and the coordinate axes that index them.

use vstd::prelude::*;

verus! {

/// Bound on vector components accepted by the arithmetic operators, chosen so
/// that sums and differences of a handful of in-range components stay well
/// inside `i32`.
pub open spec fn coord_in_range(c: int) -> bool {
    -0x4000_0000 <= c && c <= 0x4000_0000
}

/// A 2D vector with integer components.
#[derive(Debug, Clone, Copy, PartialEq, Eq, Structural, Hash)]
pub struct Vector2 {
    pub x: i32,
    pub y: i32,
}

/// A 2D point with integer coordinates; alias for [`Vector2`].
pub type Point = Vector2;

/// A 3D point with integer coordinates; alias for [`Vector3`].
pub type Point3 = Vector3;

impl Vector2 {
    /// Creates a new vector with the given components.
    pub fn new(x: i32, y: i32) -> (r: Vector2)
        ensures
            r.x == x,
            r.y == y,
    {
        Vector2 { x, y }
    }

    /// Returns the zero vector.
    pub fn zero() -> (r: Vector2)
        ensures
            r.x == 0,
            r.y == 0,
    {
        Vector2 { x: 0, y: 0 }
    }

    /// The mathematical dot product of two vectors, as an unbounded integer.
    pub open spec fn spec_dot(self, rhs: Vector2) -> int {
        self.x * rhs.x + self.y * rhs.y
    }

    /// Returns the dot product of this vector with another.
    pub fn dot(&self, rhs: &Vector2) -> (r: i32)
        requires
            coord_in_range(self.x as int),
            coord_in_range(self.y as int),
            coord_in_range(rhs.x as int),
            coord_in_range(rhs.y as int),
            i32::MIN <= self.spec_dot(*rhs) <= i32::MAX,
        ensures
            r == self.spec_dot(*rhs),
    {
        let ax = self.x as i64;
        let ay = self.y as i64;
        let bx = rhs.x as i64;
        let by = rhs.y as i64;
        proof {
            crate::numeric::lemma_mul_bounds(ax as int, bx as int, 0x4000_0000);
            crate::numeric::lemma_mul_bounds(ay as int, by as int, 0x4000_0000);
        }
        (ax * bx + ay * by) as i32
    }

    /// The squared length of the vector, as an unbounded integer.
    pub open spec fn spec_sqr_magnitude(self) -> int {
        self.spec_dot(self)
    }

    /// Returns the squared magnitude of this vector.
    pub fn sqr_magnitude(&self) -> (r: i32)
        requires
            coord_in_range(self.x as int),
            coord_in_range(self.y as int),
            self.spec_sqr_magnitude() <= i32::MAX,
        ensures
            r == self.spec_sqr_magnitude(),
    {
        proof {
            crate::numeric::lemma_mul_bounds(self.x as int, self.x as int, 0x4000_0000);
            crate::numeric::lemma_mul_bounds(self.y as int, self.y as int, 0x4000_0000);
            assert(self.x as int * self.x as int >= 0 && self.y as int * self.y as int >= 0)
                by (nonlinear_arith);
        }
        self.dot(self)
    }
}

/// A 3D vector with integer components.
#[derive(Debug, Clone, Copy, PartialEq, Eq, Structural, Hash)]
pub struct Vector3 {
    pub x: i32,
    pub y: i32,
    pub z: i32,
}

/// A 4D vector with integer components.
#[derive(Debug, Clone, Copy, PartialEq, Eq, Structural, Hash)]
pub struct Vector4 {
    pub x: i32,
    pub y: i32,
    pub z: i32,
    pub w: i32,
}

impl Vector3 {
    /// Creates a new vector with the given components.
    pub fn new(x: i32, y: i32, z: i32) -> (r: Vector3)
        ensures
            r == (Vector3 { x, y, z }),
    {
        Vector3 { x, y, z }
    }

    /// Returns the zero vector.
    pub fn zero() -> (r: Vector3)
        ensures
            r == (Vector3 { x: 0, y: 0, z: 0 }),
    {
        Vector3 { x: 0, y: 0, z: 0 }
    }

    /// Promotes a 2D vector to 3D with the given z component.
    pub fn from_vector2(vec2: Vector2, z: i32) -> (r: Vector3)
        ensures
            r == (Vector3 { x: vec2.x, y: vec2.y, z }),
    {
        Vector3 { x: vec2.x, y: vec2.y, z }
    }

    /// Returns the dot product of this vector with another.
    pub fn dot(&self, rhs: &Vector3) -> (r: i32)
        requires
            coord_in_range(self.x as int),
            coord_in_range(self.y as int),
            coord_in_range(self.z as int),
            coord_in_range(rhs.x as int),
            coord_in_range(rhs.y as int),
            coord_in_range(rhs.z as int),
            i32::MIN <= self.x * rhs.x + self.y * rhs.y + self.z * rhs.z <= i32::MAX,
        ensures
            r == self.x * rhs.x + self.y * rhs.y + self.z * rhs.z,
    {
        proof {
            crate::numeric::lemma_mul_bounds(self.x as int, rhs.x as int, 0x4000_0000);
            crate::numeric::lemma_mul_bounds(self.y as int, rhs.y as int, 0x4000_0000);
            crate::numeric::lemma_mul_bounds(self.z as int, rhs.z as int, 0x4000_0000);
        }
        let r: i64 = self.x as i64 * rhs.x as i64 + self.y as i64 * rhs.y as i64 + self.z as i64
            * rhs.z as i64;
        r as i32
    }

    /// Returns the cross product of this vector with another.
    pub fn cross(&self, rhs: Vector3) -> (r: Vector3)
        requires
            coord_in_range(self.x as int),
            coord_in_range(self.y as int),
            coord_in_range(self.z as int),
            coord_in_range(rhs.x as int),
            coord_in_range(rhs.y as int),
            coord_in_range(rhs.z as int),
            i32::MIN <= self.y * rhs.z - self.z * rhs.y <= i32::MAX,
            i32::MIN <= self.z * rhs.x - self.x * rhs.z <= i32::MAX,
            i32::MIN <= self.x * rhs.y - self.y * rhs.x <= i32::MAX,
        ensures
            r.x == self.y * rhs.z - self.z * rhs.y,
            r.y == self.z * rhs.x - self.x * rhs.z,
            r.z == self.x * rhs.y - self.y * rhs.x,
    {
        proof {
            crate::numeric::lemma_mul_bounds(self.x as int, rhs.x as int, 0x4000_0000);
            crate::numeric::lemma_mul_bounds(self.y as int, rhs.y as int, 0x4000_0000);
            crate::numeric::lemma_mul_bounds(self.z as int, rhs.z as int, 0x4000_0000);
            crate::numeric::lemma_mul_bounds(self.x as int, rhs.y as int, 0x4000_0000);
            crate::numeric::lemma_mul_bounds(self.y as int, rhs.z as int, 0x4000_0000);
            crate::numeric::lemma_mul_bounds(self.z as int, rhs.x as int, 0x4000_0000);
            crate::numeric::lemma_mul_bounds(self.x as int, rhs.z as int, 0x4000_0000);
            crate::numeric::lemma_mul_bounds(self.y as int, rhs.x as int, 0x4000_0000);
            crate::numeric::lemma_mul_bounds(self.z as int, rhs.y as int, 0x4000_0000);
        }
        let x: i64 = self.y as i64 * rhs.z as i64 - self.z as i64 * rhs.y as i64;
        let y: i64 = self.z as i64 * rhs.x as i64 - self.x as i64 * rhs.z as i64;
        let z: i64 = self.x as i64 * rhs.y as i64 - self.y as i64 * rhs.x as i64;
        Vector3 { x: x as i32, y: y as i32, z: z as i32 }
    }
}

impl Vector4 {
    /// Creates a new vector with the given components.
    pub fn new(x: i32, y: i32, z: i32, w: i32) -> (r: Vector4)
        ensures
            r == (Vector4 { x, y, z, w }),
    {
        Vector4 { x, y, z, w }
    }

    /// Returns the zero vector.
    pub fn zero() -> (r: Vector4)
        ensures
            r == (Vector4 { x: 0, y: 0, z: 0, w: 0 }),
    {
        Vector4 { x: 0, y: 0, z: 0, w: 0 }
    }

    /// Promotes a 3D vector to 4D with the given w component.
    pub fn from_vector3(vec3: Vector3, w: i32) -> (r: Vector4)
        ensures
            r == (Vector4 { x: vec3.x, y: vec3.y, z: vec3.z, w }),
    {
        Vector4 { x: vec3.x, y: vec3.y, z: vec3.z, w }
    }
}

impl std::ops::Add<Vector3> for Vector3 {
    type Output = Vector3;

    fn add(self, rhs: Vector3) -> (r: Vector3) {
        Vector3 { x: self.x + rhs.x, y: self.y + rhs.y, z: self.z + rhs.z }
    }
}

impl vstd::std_specs::ops::AddSpecImpl<Vector3> for Vector3 {
    open spec fn obeys_add_spec() -> bool {
        true
    }

    open spec fn add_req(self, rhs: Vector3) -> bool {
        &&& i32::MIN <= self.x + rhs.x <= i32::MAX
        &&& i32::MIN <= self.y + rhs.y <= i32::MAX
        &&& i32::MIN <= self.z + rhs.z <= i32::MAX
    }

    open spec fn add_spec(self, rhs: Vector3) -> Vector3 {
        Vector3 {
            x: (self.x + rhs.x) as i32,
            y: (self.y + rhs.y) as i32,
            z: (self.z + rhs.z) as i32,
        }
    }
}

/// Represents the axes of a 2D coordinate system (X and Y).
#[derive(Debug, Clone, Copy, PartialEq, Eq, Structural)]
pub enum Axis2D {
    X,
    Y,
}

/// Represents the axes of a 3D coordinate system (X, Y, and Z).
#[derive(Debug, Clone, Copy, PartialEq, Eq, Structural)]
pub enum Axis3D {
    X,
    Y,
    Z,
}

/// Represents the axes of a 4D coordinate system (X, Y, Z, and W).
#[derive(Debug, Clone, Copy, PartialEq, Eq, Structural)]
pub enum Axis4D {
    X,
    Y,
    Z,
    W,
}

/// Errors that can occur during axis conversion operations: the named axis
/// value has no counterpart in the target coordinate system.
#[derive(Debug, Clone, Copy, PartialEq, Eq, Structural)]
pub enum AxisError {
    /// The specified `Axis2D` value is not valid for this operation.
    InvalidAxis2D(Axis2D),
    /// The specified `Axis3D` value is not valid for this operation.
    InvalidAxis3D(Axis3D),
    /// The specified `Axis4D` value is not valid for this operation.
    InvalidAxis4D(Axis4D),
}

impl Axis2D {
    /// Returns the other 2D axis.
    pub fn opposite(&self) -> (r: Axis2D)
        ensures
            r == (if self is X {
                Axis2D::Y
            } else {
                Axis2D::X
            }),
    {
        match self {
            Axis2D::X => Axis2D::Y,
            Axis2D::Y => Axis2D::X,
        }
    }
}

impl Vector2 {
    /// The component of the vector along the given axis.
    pub open spec fn spec_component(self, axis: Axis2D) -> i32 {
        match axis {
            Axis2D::X => self.x,
            Axis2D::Y => self.y,
        }
    }

    /// Returns the component of this vector along `axis`.
    pub fn component(&self, axis: Axis2D) -> (r: i32)
        ensures
            r == self.spec_component(axis),
    {
        match axis {
            Axis2D::X => self.x,
            Axis2D::Y => self.y,
        }
    }

    /// The vector with the component along `axis` replaced by `value`.
    pub open spec fn spec_with_component(self, axis: Axis2D, value: i32) -> Vector2 {
        match axis {
            Axis2D::X => Vector2 { x: value, y: self.y },
            Axis2D::Y => Vector2 { x: self.x, y: value },
        }
    }

    /// Replaces the component of this vector along `axis` with `value`.
    pub fn set_component(&mut self, axis: Axis2D, value: i32)
        ensures
            *final(self) == old(self).spec_with_component(axis, value),
    {
        match axis {
            Axis2D::X => {
                self.x = value;
            },
            Axis2D::Y => {
                self.y = value;
            },
        }
    }

    /// Returns the vector of the given length along one axis, zero along the
    /// other.
    pub fn along_axis(axis: Axis2D, length: i32) -> (r: Vector2)
        ensures
            r == (Vector2 { x: 0, y: 0 }).spec_with_component(axis, length),
    {
        let mut res = Vector2 { x: 0, y: 0 };
        res.set_component(axis, length);
        res
    }
}

impl Vector2 {
    /// Creates a new vector by applying a mapping to each component.
    pub fn map<F: FnMut(i32) -> i32>(self, f: F) -> Vector2
        requires
            forall|cb: F, c: i32| #[trigger] call_requires(cb, (c,)),
    {
        let mut f = f;
        let x = f(self.x);
        let y = f(self.y);
        Vector2 { x, y }
    }
}

impl Vector3 {
    /// Creates a new vector by applying a mapping to each component.
    pub fn map<F: FnMut(i32) -> i32>(self, f: F) -> Vector3
        requires
            forall|cb: F, c: i32| #[trigger] call_requires(cb, (c,)),
    {
        let mut f = f;
        let x = f(self.x);
        let y = f(self.y);
        let z = f(self.z);
        Vector3 { x, y, z }
    }
}

impl Vector4 {
    /// Creates a new vector by applying a mapping to each component.
    pub fn map<F: FnMut(i32) -> i32>(self, f: F) -> Vector4
        requires
            forall|cb: F, c: i32| #[trigger] call_requires(cb, (c,)),
    {
        let mut f = f;
        let x = f(self.x);
        let y = f(self.y);
        let z = f(self.z);
        let w = f(self.w);
        Vector4 { x, y, z, w }
    }

    /// Returns the vector of the given length along one axis, zero along
    /// the others.
    pub fn along_axis(axis: Axis4D, length: i32) -> (r: Vector4)
        ensures
            axis is X ==> r == (Vector4 { x: length, y: 0, z: 0, w: 0 }),
            axis is Y ==> r == (Vector4 { x: 0, y: length, z: 0, w: 0 }),
            axis is Z ==> r == (Vector4 { x: 0, y: 0, z: length, w: 0 }),
            axis is W ==> r == (Vector4 { x: 0, y: 0, z: 0, w: length }),
    {
        match axis {
            Axis4D::X => Vector4 { x: length, y: 0, z: 0, w: 0 },
            Axis4D::Y => Vector4 { x: 0, y: length, z: 0, w: 0 },
            Axis4D::Z => Vector4 { x: 0, y: 0, z: length, w: 0 },
            Axis4D::W => Vector4 { x: 0, y: 0, z: 0, w: length },
        }
    }
}

impl std::convert::From<Axis2D> for Axis3D {
    fn from(axis: Axis2D) -> (r: Axis3D) {
        match axis {
            Axis2D::X => Axis3D::X,
            Axis2D::Y => Axis3D::Y,
        }
    }
}

impl vstd::std_specs::convert::FromSpecImpl<Axis2D> for Axis3D {
    open spec fn obeys_from_spec() -> bool {
        true
    }

    open spec fn from_spec(axis: Axis2D) -> Axis3D {
        match axis {
            Axis2D::X => Axis3D::X,
            Axis2D::Y => Axis3D::Y,
        }
    }
}

impl std::convert::From<Axis2D> for Axis4D {
    fn from(axis: Axis2D) -> (r: Axis4D) {
        match axis {
            Axis2D::X => Axis4D::X,
            Axis2D::Y => Axis4D::Y,
        }
    }
}

impl vstd::std_specs::convert::FromSpecImpl<Axis2D> for Axis4D {
    open spec fn obeys_from_spec() -> bool {
        true
    }

    open spec fn from_spec(axis: Axis2D) -> Axis4D {
        match axis {
            Axis2D::X => Axis4D::X,
            Axis2D::Y => Axis4D::Y,
        }
    }
}

impl std::convert::From<Axis3D> for Axis4D {
    fn from(axis: Axis3D) -> (r: Axis4D) {
        match axis {
            Axis3D::X => Axis4D::X,
            Axis3D::Y => Axis4D::Y,
            Axis3D::Z => Axis4D::Z,
        }
    }
}

impl vstd::std_specs::convert::FromSpecImpl<Axis3D> for Axis4D {
    open spec fn obeys_from_spec() -> bool {
        true
    }

    open spec fn from_spec(axis: Axis3D) -> Axis4D {
        match axis {
            Axis3D::X => Axis4D::X,
            Axis3D::Y => Axis4D::Y,
            Axis3D::Z => Axis4D::Z,
        }
    }
}

impl std::convert::TryFrom<Axis3D> for Axis2D {
    type Error = AxisError;

    fn try_from(value: Axis3D) -> (r: Result<Axis2D, AxisError>) {
        match value {
            Axis3D::X => Ok(Axis2D::X),
            Axis3D::Y => Ok(Axis2D::Y),
            _ => Err(AxisError::InvalidAxis3D(value)),
        }
    }
}

impl vstd::std_specs::convert::TryFromSpecImpl<Axis3D> for Axis2D {
    open spec fn obeys_try_from_spec() -> bool {
        true
    }

    open spec fn try_from_spec(value: Axis3D) -> Result<Axis2D, AxisError> {
        match value {
            Axis3D::X => Ok(Axis2D::X),
            Axis3D::Y => Ok(Axis2D::Y),
            Axis3D::Z => Err(AxisError::InvalidAxis3D(value)),
        }
    }
}

impl std::convert::TryFrom<Axis4D> for Axis2D {
    type Error = AxisError;

    fn try_from(value: Axis4D) -> (r: Result<Axis2D, AxisError>) {
        match value {
            Axis4D::X => Ok(Axis2D::X),
            Axis4D::Y => Ok(Axis2D::Y),
            _ => Err(AxisError::InvalidAxis4D(value)),
        }
    }
}

impl vstd::std_specs::convert::TryFromSpecImpl<Axis4D> for Axis2D {
    open spec fn obeys_try_from_spec() -> bool {
        true
    }

    open spec fn try_from_spec(value: Axis4D) -> Result<Axis2D, AxisError> {
        match value {
            Axis4D::X => Ok(Axis2D::X),
            Axis4D::Y => Ok(Axis2D::Y),
            _ => Err(AxisError::InvalidAxis4D(value)),
        }
    }
}

impl std::convert::TryFrom<Axis4D> for Axis3D {
    type Error = AxisError;

    fn try_from(value: Axis4D) -> (r: Result<Axis3D, AxisError>) {
        match value {
            Axis4D::X => Ok(Axis3D::X),
            Axis4D::Y => Ok(Axis3D::Y),
            Axis4D::Z => Ok(Axis3D::Z),
            _ => Err(AxisError::InvalidAxis4D(value)),
        }
    }
}

impl vstd::std_specs::convert::TryFromSpecImpl<Axis4D> for Axis3D {
    open spec fn obeys_try_from_spec() -> bool {
        true
    }

    open spec fn try_from_spec(value: Axis4D) -> Result<Axis3D, AxisError> {
        match value {
            Axis4D::X => Ok(Axis3D::X),
            Axis4D::Y => Ok(Axis3D::Y),
            Axis4D::Z => Ok(Axis3D::Z),
            Axis4D::W => Err(AxisError::InvalidAxis4D(value)),
        }
    }
}

impl std::ops::Add<Vector2> for Vector2 {
    type Output = Vector2;

    fn add(self, rhs: Vector2) -> (r: Vector2) {
        Vector2 { x: self.x + rhs.x, y: self.y + rhs.y }
    }
}

impl vstd::std_specs::ops::AddSpecImpl<Vector2> for Vector2 {
    open spec fn obeys_add_spec() -> bool {
        true
    }

    open spec fn add_req(self, rhs: Vector2) -> bool {
        i32::MIN <= self.x + rhs.x <= i32::MAX && i32::MIN <= self.y + rhs.y <= i32::MAX
    }

    open spec fn add_spec(self, rhs: Vector2) -> Vector2 {
        Vector2 { x: (self.x + rhs.x) as i32, y: (self.y + rhs.y) as i32 }
    }
}

impl std::ops::Sub<Vector2> for Vector2 {
    type Output = Vector2;

    fn sub(self, rhs: Vector2) -> (r: Vector2) {
        Vector2 { x: self.x - rhs.x, y: self.y - rhs.y }
    }
}

impl vstd::std_specs::ops::SubSpecImpl<Vector2> for Vector2 {
    open spec fn obeys_sub_spec() -> bool {
        true
    }

    open spec fn sub_req(self, rhs: Vector2) -> bool {
        i32::MIN <= self.x - rhs.x <= i32::MAX && i32::MIN <= self.y - rhs.y <= i32::MAX
    }

    open spec fn sub_spec(self, rhs: Vector2) -> Vector2 {
        Vector2 { x: (self.x - rhs.x) as i32, y: (self.y - rhs.y) as i32 }
    }
}

impl std::ops::Mul<i32> for Vector2 {
    type Output = Vector2;

    fn mul(self, rhs: i32) -> (r: Vector2) {
        Vector2 { x: self.x * rhs, y: self.y * rhs }
    }
}

impl vstd::std_specs::ops::MulSpecImpl<i32> for Vector2 {
    open spec fn obeys_mul_spec() -> bool {
        true
    }

    open spec fn mul_req(self, rhs: i32) -> bool {
        i32::MIN <= self.x * rhs <= i32::MAX && i32::MIN <= self.y * rhs <= i32::MAX
    }

    open spec fn mul_spec(self, rhs: i32) -> Vector2 {
        Vector2 { x: (self.x * rhs) as i32, y: (self.y * rhs) as i32 }
    }
}

} // verus!
