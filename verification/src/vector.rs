//! Vectors of three fixed-point coordinates, and their model over the integers.
use vstd::prelude::*;
use crate::fixed::{in_range, lemma_product_bound, saturate, saturated, LIMIT};

verus! {

/// A point or a displacement in space, over the integers: what a [`Vector3`]
/// stands for, and what differences and products of such vectors are.
pub struct Vec3 {
    pub x: int,
    pub y: int,
    pub z: int,
}

impl Vec3 {
    /// The vector without length.
    pub open spec fn zero() -> Vec3 {
        Vec3 { x: 0, y: 0, z: 0 }
    }

    /// Whether each coordinate can be held as a scalar.
    pub open spec fn in_range(self) -> bool {
        in_range(self.x) && in_range(self.y) && in_range(self.z)
    }

    /// The vector with each coordinate brought into the scalar range.
    pub open spec fn saturated(self) -> Vec3 {
        Vec3 { x: saturated(self.x), y: saturated(self.y), z: saturated(self.z) }
    }

    /// The sum, coordinate by coordinate.
    pub open spec fn plus(self, other: Vec3) -> Vec3 {
        Vec3 { x: self.x + other.x, y: self.y + other.y, z: self.z + other.z }
    }

    /// The difference, coordinate by coordinate.
    pub open spec fn minus(self, other: Vec3) -> Vec3 {
        Vec3 { x: self.x - other.x, y: self.y - other.y, z: self.z - other.z }
    }

    /// The scalar product.
    pub open spec fn dot(self, other: Vec3) -> int {
        self.x * other.x + self.y * other.y + self.z * other.z
    }
}

/// Three fixed-point coordinates, each within the scalar range.
#[derive(Clone, Copy, Debug, PartialEq, Eq, Structural)]
pub struct Vector3 {
    x: i64,
    y: i64,
    z: i64,
}

impl View for Vector3 {
    type V = Vec3;

    closed spec fn view(&self) -> Vec3 {
        Vec3 { x: self.x as int, y: self.y as int, z: self.z as int }
    }
}

impl Vector3 {
    /// Every vector that exists has its coordinates in range.
    #[verifier::type_invariant]
    pub open spec fn wf(self) -> bool {
        self@.in_range()
    }

    /// The vector `(x, y, z)`, each coordinate saturated.
    pub fn new(x: i64, y: i64, z: i64) -> (r: Vector3)
        ensures
            r@ == (Vec3 { x: x as int, y: y as int, z: z as int }).saturated(),
    {
        Vector3 { x: saturate(x as i128), y: saturate(y as i128), z: saturate(z as i128) }
    }

    /// The vector `(x, y, z)` of wide intermediate results, each saturated.
    pub(crate) fn from_wide(x: i128, y: i128, z: i128) -> (r: Vector3)
        ensures
            r@ == (Vec3 { x: x as int, y: y as int, z: z as int }).saturated(),
    {
        Vector3 { x: saturate(x), y: saturate(y), z: saturate(z) }
    }

    /// The scalar product with `other`, which is too wide for a scalar.
    pub fn dot(&self, other: &Vector3) -> (r: i128)
        ensures
            r == self@.dot(other@),
            -3 * (LIMIT * LIMIT) <= r <= 3 * (LIMIT * LIMIT),
    {
        proof {
            use_type_invariant(self);
            use_type_invariant(other);
            lemma_product_bound(self.x as int, other.x as int, LIMIT as int, LIMIT as int);
            lemma_product_bound(self.y as int, other.y as int, LIMIT as int, LIMIT as int);
            lemma_product_bound(self.z as int, other.z as int, LIMIT as int, LIMIT as int);
        }
        (self.x as i128) * (other.x as i128) + (self.y as i128) * (other.y as i128) + (self.z as i128)
            * (other.z as i128)
    }

    /// The `x` coordinate.
    pub fn x(&self) -> (r: i64)
        ensures
            r == self@.x,
    {
        self.x
    }

    /// The `y` coordinate.
    pub fn y(&self) -> (r: i64)
        ensures
            r == self@.y,
    {
        self.y
    }

    /// The `z` coordinate.
    pub fn z(&self) -> (r: i64)
        ensures
            r == self@.z,
    {
        self.z
    }
}

} // verus!
