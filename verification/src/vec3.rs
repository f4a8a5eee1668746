//! Three-component vectors of fixed-point scalars: positions, directions and
//! normals.  Every operation's contract gives the exact integer value of each
//! component of the result through the `spec_*` mirrors.

use vstd::prelude::*;
use crate::fx;
use crate::fx::{spec_add, spec_sub, spec_mul, spec_div, spec_neg, spec_sqrt, ONE};

verus! {

/// A 3-component vector of fixed-point scalars.
#[derive(Clone, Copy, Debug, PartialEq, Eq, Structural)]
pub struct Vec3 {
    pub x: i64,
    pub y: i64,
    pub z: i64,
}

/// The mathematical model of a vector: its components as unbounded integers.
pub struct Vec3s {
    pub x: int,
    pub y: int,
    pub z: int,
}

impl View for Vec3 {
    type V = Vec3s;

    open spec fn view(&self) -> Vec3s {
        Vec3s { x: self.x as int, y: self.y as int, z: self.z as int }
    }
}

/// Component-wise sum.
pub open spec fn spec_add3(a: Vec3s, b: Vec3s) -> Vec3s {
    Vec3s { x: spec_add(a.x, b.x), y: spec_add(a.y, b.y), z: spec_add(a.z, b.z) }
}

/// Component-wise difference.
pub open spec fn spec_sub3(a: Vec3s, b: Vec3s) -> Vec3s {
    Vec3s { x: spec_sub(a.x, b.x), y: spec_sub(a.y, b.y), z: spec_sub(a.z, b.z) }
}

/// Component-wise negation.
pub open spec fn spec_neg3(a: Vec3s) -> Vec3s {
    Vec3s { x: spec_neg(a.x), y: spec_neg(a.y), z: spec_neg(a.z) }
}

/// Scaling by a scalar.
pub open spec fn spec_scale3(a: Vec3s, s: int) -> Vec3s {
    Vec3s { x: spec_mul(a.x, s), y: spec_mul(a.y, s), z: spec_mul(a.z, s) }
}

/// Dot product: the three component products summed left to right.
pub open spec fn spec_dot(a: Vec3s, b: Vec3s) -> int {
    spec_add(spec_add(spec_mul(a.x, b.x), spec_mul(a.y, b.y)), spec_mul(a.z, b.z))
}

/// Cross product.
pub open spec fn spec_cross(a: Vec3s, b: Vec3s) -> Vec3s {
    Vec3s {
        x: spec_sub(spec_mul(a.y, b.z), spec_mul(a.z, b.y)),
        y: spec_sub(spec_mul(a.z, b.x), spec_mul(a.x, b.z)),
        z: spec_sub(spec_mul(a.x, b.y), spec_mul(a.y, b.x)),
    }
}

/// Euclidean length: the square root of the dot product with itself.
pub open spec fn spec_length(a: Vec3s) -> int {
    spec_sqrt(spec_dot(a, a))
}

/// Normalization: each component divided by the length; the zero vector is
/// left unchanged.
pub open spec fn spec_normalize(a: Vec3s) -> Vec3s {
    let l = spec_length(a);
    if l == 0 {
        a
    } else {
        Vec3s { x: spec_div(a.x, l), y: spec_div(a.y, l), z: spec_div(a.z, l) }
    }
}

/// The canonical +X axis.
pub open spec fn spec_unit_x() -> Vec3s {
    Vec3s { x: ONE as int, y: 0, z: 0 }
}

/// The canonical +Y axis.
pub open spec fn spec_unit_y() -> Vec3s {
    Vec3s { x: 0, y: ONE as int, z: 0 }
}

/// The canonical +Z axis.
pub open spec fn spec_unit_z() -> Vec3s {
    Vec3s { x: 0, y: 0, z: ONE as int }
}

impl Vec3 {
    /// Builds a vector from its components.
    pub fn new(x: i64, y: i64, z: i64) -> (r: Vec3)
        ensures
            r@ == (Vec3s { x: x as int, y: y as int, z: z as int }),
    {
        Vec3 { x, y, z }
    }

    /// The zero vector.
    pub fn zero() -> (r: Vec3)
        ensures
            r@ == (Vec3s { x: 0, y: 0, z: 0 }),
    {
        Vec3 { x: 0, y: 0, z: 0 }
    }

    /// The canonical +X axis.
    pub fn unit_x() -> (r: Vec3)
        ensures
            r@ == spec_unit_x(),
    {
        Vec3 { x: ONE, y: 0, z: 0 }
    }

    /// The canonical +Y axis.
    pub fn unit_y() -> (r: Vec3)
        ensures
            r@ == spec_unit_y(),
    {
        Vec3 { x: 0, y: ONE, z: 0 }
    }

    /// The canonical +Z axis.
    pub fn unit_z() -> (r: Vec3)
        ensures
            r@ == spec_unit_z(),
    {
        Vec3 { x: 0, y: 0, z: ONE }
    }

    /// Vector sum.
    pub fn add(&self, o: &Vec3) -> (r: Vec3)
        ensures
            r@ == spec_add3(self@, o@),
    {
        Vec3 { x: fx::add(self.x, o.x), y: fx::add(self.y, o.y), z: fx::add(self.z, o.z) }
    }

    /// Vector difference.
    pub fn sub(&self, o: &Vec3) -> (r: Vec3)
        ensures
            r@ == spec_sub3(self@, o@),
    {
        Vec3 { x: fx::sub(self.x, o.x), y: fx::sub(self.y, o.y), z: fx::sub(self.z, o.z) }
    }

    /// Vector negation.
    pub fn neg(&self) -> (r: Vec3)
        ensures
            r@ == spec_neg3(self@),
    {
        Vec3 { x: fx::neg(self.x), y: fx::neg(self.y), z: fx::neg(self.z) }
    }

    /// Scaling by a scalar.
    pub fn scale(&self, s: i64) -> (r: Vec3)
        ensures
            r@ == spec_scale3(self@, s as int),
    {
        Vec3 { x: fx::mul(self.x, s), y: fx::mul(self.y, s), z: fx::mul(self.z, s) }
    }

    /// Dot product.
    pub fn dot(&self, o: &Vec3) -> (r: i64)
        ensures
            r == spec_dot(self@, o@),
    {
        fx::add(fx::add(fx::mul(self.x, o.x), fx::mul(self.y, o.y)), fx::mul(self.z, o.z))
    }

    /// Cross product.
    pub fn cross(&self, o: &Vec3) -> (r: Vec3)
        ensures
            r@ == spec_cross(self@, o@),
    {
        Vec3 {
            x: fx::sub(fx::mul(self.y, o.z), fx::mul(self.z, o.y)),
            y: fx::sub(fx::mul(self.z, o.x), fx::mul(self.x, o.z)),
            z: fx::sub(fx::mul(self.x, o.y), fx::mul(self.y, o.x)),
        }
    }

    /// Euclidean length.
    pub fn length(&self) -> (r: i64)
        ensures
            r == spec_length(self@),
            r >= 0,
    {
        fx::sqrt(self.dot(self))
    }

    /// Distance between two points.
    pub fn distance(&self, o: &Vec3) -> (r: i64)
        ensures
            r == spec_length(spec_sub3(self@, o@)),
            r >= 0,
    {
        self.sub(o).length()
    }

    /// Unit vector in the same direction; the zero vector stays zero.
    pub fn normalize(&self) -> (r: Vec3)
        ensures
            r@ == spec_normalize(self@),
    {
        let l: i64 = self.length();
        if l == 0 {
            *self
        } else {
            Vec3 { x: fx::div(self.x, l), y: fx::div(self.y, l), z: fx::div(self.z, l) }
        }
    }
}

} // verus!
