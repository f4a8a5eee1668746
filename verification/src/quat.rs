//! Quaternions over the fixed-point scalar: the camera's orientation, built
//! from axis-angle rotations and applied to vectors.  As everywhere in this
//! crate, each operation's contract states its exact integer result via a
//! `spec_*` mirror.

use vstd::prelude::*;
use crate::fx;
use crate::fx::{spec_add, spec_sub, spec_mul, spec_div, spec_sin, spec_cos, spec_sqrt, tdiv, ONE};
use crate::vec3::{Vec3, Vec3s, spec_cross, spec_normalize, spec_scale3, spec_add3, spec_neg3};

verus! {

/// A quaternion `w + x*i + y*j + z*k` of fixed-point scalars.
#[derive(Clone, Copy, Debug, PartialEq, Eq, Structural)]
pub struct Quat {
    pub w: i64,
    pub x: i64,
    pub y: i64,
    pub z: i64,
}

/// The mathematical model of a quaternion: its components as unbounded
/// integers.
pub struct Quats {
    pub w: int,
    pub x: int,
    pub y: int,
    pub z: int,
}

impl View for Quat {
    type V = Quats;

    open spec fn view(&self) -> Quats {
        Quats { w: self.w as int, x: self.x as int, y: self.y as int, z: self.z as int }
    }
}

/// The identity rotation.
pub open spec fn spec_identity() -> Quats {
    Quats { w: ONE as int, x: 0, y: 0, z: 0 }
}

/// Hamilton product of two quaternions.
pub open spec fn spec_qmul(a: Quats, b: Quats) -> Quats {
    Quats {
        w: spec_sub(
            spec_sub(spec_sub(spec_mul(a.w, b.w), spec_mul(a.x, b.x)), spec_mul(a.y, b.y)),
            spec_mul(a.z, b.z),
        ),
        x: spec_sub(
            spec_add(spec_add(spec_mul(a.w, b.x), spec_mul(a.x, b.w)), spec_mul(a.y, b.z)),
            spec_mul(a.z, b.y),
        ),
        y: spec_add(
            spec_add(spec_sub(spec_mul(a.w, b.y), spec_mul(a.x, b.z)), spec_mul(a.y, b.w)),
            spec_mul(a.z, b.x),
        ),
        z: spec_add(
            spec_sub(spec_add(spec_mul(a.w, b.z), spec_mul(a.x, b.y)), spec_mul(a.y, b.x)),
            spec_mul(a.z, b.w),
        ),
    }
}

/// The vector part of a quaternion.
pub open spec fn spec_qvec(q: Quats) -> Vec3s {
    Vec3s { x: q.x, y: q.y, z: q.z }
}

/// Rotation of a vector by a quaternion:
/// `v + w*t + qv x t` where `t = 2 * (qv x v)`.  For the identity
/// quaternion this is exactly `v`.
pub open spec fn spec_rotate(q: Quats, v: Vec3s) -> Vec3s {
    let qv = spec_qvec(q);
    let t = spec_scale3(spec_cross(qv, v), 2 * (ONE as int));
    spec_add3(spec_add3(v, spec_scale3(t, q.w)), spec_cross(qv, t))
}

/// The rotation of angle `angle` (radians scaled by `ONE`) around `axis`
/// (expected unit length): `(cos(angle/2), axis * sin(angle/2))`.
pub open spec fn spec_from_axis_angle(axis: Vec3s, angle: int) -> Quats {
    let half = tdiv(angle, 2);
    let s = spec_sin(half);
    Quats {
        w: spec_cos(half),
        x: spec_mul(axis.x, s),
        y: spec_mul(axis.y, s),
        z: spec_mul(axis.z, s),
    }
}

/// The orientation whose rotated canonical axes are the given orthonormal
/// columns, recovered by the largest-component method.
pub open spec fn spec_from_columns(c0: Vec3s, c1: Vec3s, c2: Vec3s) -> Quats {
    let four_w_sq_m1 = spec_add(spec_add(c0.x, c1.y), c2.z);
    let four_x_sq_m1 = spec_sub(spec_sub(c0.x, c1.y), c2.z);
    let four_y_sq_m1 = spec_sub(spec_sub(c1.y, c0.x), c2.z);
    let four_z_sq_m1 = spec_sub(spec_sub(c2.z, c0.x), c1.y);
    if four_w_sq_m1 >= four_x_sq_m1 && four_w_sq_m1 >= four_y_sq_m1 && four_w_sq_m1
        >= four_z_sq_m1 {
        let big = tdiv(spec_sqrt(spec_add(four_w_sq_m1, ONE as int)), 2);
        let mult = spec_div(16384, big);
        Quats {
            w: big,
            x: spec_mul(spec_sub(c1.z, c2.y), mult),
            y: spec_mul(spec_sub(c2.x, c0.z), mult),
            z: spec_mul(spec_sub(c0.y, c1.x), mult),
        }
    } else if four_x_sq_m1 >= four_y_sq_m1 && four_x_sq_m1 >= four_z_sq_m1 {
        let big = tdiv(spec_sqrt(spec_add(four_x_sq_m1, ONE as int)), 2);
        let mult = spec_div(16384, big);
        Quats {
            w: spec_mul(spec_sub(c1.z, c2.y), mult),
            x: big,
            y: spec_mul(spec_add(c0.y, c1.x), mult),
            z: spec_mul(spec_add(c2.x, c0.z), mult),
        }
    } else if four_y_sq_m1 >= four_z_sq_m1 {
        let big = tdiv(spec_sqrt(spec_add(four_y_sq_m1, ONE as int)), 2);
        let mult = spec_div(16384, big);
        Quats {
            w: spec_mul(spec_sub(c2.x, c0.z), mult),
            x: spec_mul(spec_add(c0.y, c1.x), mult),
            y: big,
            z: spec_mul(spec_add(c1.z, c2.y), mult),
        }
    } else {
        let big = tdiv(spec_sqrt(spec_add(four_z_sq_m1, ONE as int)), 2);
        let mult = spec_div(16384, big);
        Quats {
            w: spec_mul(spec_sub(c0.y, c1.x), mult),
            x: spec_mul(spec_add(c2.x, c0.z), mult),
            y: spec_mul(spec_add(c1.z, c2.y), mult),
            z: big,
        }
    }
}

/// The orientation that looks along `dir` with `up` roughly upward: the
/// rotated canonical -Z axis points along `dir`.
pub open spec fn spec_look_rotation(dir: Vec3s, up: Vec3s) -> Quats {
    let c2 = spec_neg3(spec_normalize(dir));
    let c0 = spec_normalize(spec_cross(up, c2));
    let c1 = spec_cross(c2, c0);
    spec_from_columns(c0, c1, c2)
}

/// The identity rotation leaves every representable vector exactly in
/// place: with a zero vector part both cross terms vanish.
pub proof fn lemma_rotate_identity(v: Vec3s)
    requires
        i64::MIN <= v.x <= i64::MAX,
        i64::MIN <= v.y <= i64::MAX,
        i64::MIN <= v.z <= i64::MAX,
    ensures
        spec_rotate(spec_identity(), v) == v,
{
    assert(forall|b: int| #[trigger] (0 * b) == 0) by (nonlinear_arith) {}
}

impl Quat {
    /// Builds a quaternion from its components.
    pub fn new(w: i64, x: i64, y: i64, z: i64) -> (r: Quat)
        ensures
            r@ == (Quats { w: w as int, x: x as int, y: y as int, z: z as int }),
    {
        Quat { w, x, y, z }
    }

    /// The identity rotation.
    pub fn identity() -> (r: Quat)
        ensures
            r@ == spec_identity(),
    {
        Quat { w: ONE, x: 0, y: 0, z: 0 }
    }

    /// Hamilton product.
    pub fn qmul(&self, o: &Quat) -> (r: Quat)
        ensures
            r@ == spec_qmul(self@, o@),
    {
        Quat {
            w: fx::sub(
                fx::sub(fx::sub(fx::mul(self.w, o.w), fx::mul(self.x, o.x)), fx::mul(self.y, o.y)),
                fx::mul(self.z, o.z),
            ),
            x: fx::sub(
                fx::add(fx::add(fx::mul(self.w, o.x), fx::mul(self.x, o.w)), fx::mul(self.y, o.z)),
                fx::mul(self.z, o.y),
            ),
            y: fx::add(
                fx::add(fx::sub(fx::mul(self.w, o.y), fx::mul(self.x, o.z)), fx::mul(self.y, o.w)),
                fx::mul(self.z, o.x),
            ),
            z: fx::add(
                fx::sub(fx::add(fx::mul(self.w, o.z), fx::mul(self.x, o.y)), fx::mul(self.y, o.x)),
                fx::mul(self.z, o.w),
            ),
        }
    }

    /// Rotates a vector by this quaternion.
    pub fn rotate(&self, v: &Vec3) -> (r: Vec3)
        ensures
            r@ == spec_rotate(self@, v@),
    {
        let qv = Vec3 { x: self.x, y: self.y, z: self.z };
        let t = qv.cross(v).scale(2 * ONE);
        v.add(&t.scale(self.w)).add(&qv.cross(&t))
    }

    /// The rotation of `angle` radians (scaled by `ONE`) around a unit axis.
    pub fn from_axis_angle(axis: &Vec3, angle: i64) -> (r: Quat)
        ensures
            r@ == spec_from_axis_angle(axis@, angle as int),
    {
        let half: i64 = fx::tdiv128(angle as i128, 2) as i64;
        let s: i64 = fx::sin(half);
        Quat {
            w: fx::cos(half),
            x: fx::mul(axis.x, s),
            y: fx::mul(axis.y, s),
            z: fx::mul(axis.z, s),
        }
    }

    /// Recovers the orientation whose rotated canonical axes are the given
    /// orthonormal columns.
    pub fn from_columns(c0: &Vec3, c1: &Vec3, c2: &Vec3) -> (r: Quat)
        ensures
            r@ == spec_from_columns(c0@, c1@, c2@),
    {
        let four_w_sq_m1: i64 = fx::add(fx::add(c0.x, c1.y), c2.z);
        let four_x_sq_m1: i64 = fx::sub(fx::sub(c0.x, c1.y), c2.z);
        let four_y_sq_m1: i64 = fx::sub(fx::sub(c1.y, c0.x), c2.z);
        let four_z_sq_m1: i64 = fx::sub(fx::sub(c2.z, c0.x), c1.y);
        if four_w_sq_m1 >= four_x_sq_m1 && four_w_sq_m1 >= four_y_sq_m1 && four_w_sq_m1
            >= four_z_sq_m1 {
            let big: i64 = fx::tdiv128(fx::sqrt(fx::add(four_w_sq_m1, ONE)) as i128, 2) as i64;
            let mult: i64 = fx::div(16384, big);
            Quat {
                w: big,
                x: fx::mul(fx::sub(c1.z, c2.y), mult),
                y: fx::mul(fx::sub(c2.x, c0.z), mult),
                z: fx::mul(fx::sub(c0.y, c1.x), mult),
            }
        } else if four_x_sq_m1 >= four_y_sq_m1 && four_x_sq_m1 >= four_z_sq_m1 {
            let big: i64 = fx::tdiv128(fx::sqrt(fx::add(four_x_sq_m1, ONE)) as i128, 2) as i64;
            let mult: i64 = fx::div(16384, big);
            Quat {
                w: fx::mul(fx::sub(c1.z, c2.y), mult),
                x: big,
                y: fx::mul(fx::add(c0.y, c1.x), mult),
                z: fx::mul(fx::add(c2.x, c0.z), mult),
            }
        } else if four_y_sq_m1 >= four_z_sq_m1 {
            let big: i64 = fx::tdiv128(fx::sqrt(fx::add(four_y_sq_m1, ONE)) as i128, 2) as i64;
            let mult: i64 = fx::div(16384, big);
            Quat {
                w: fx::mul(fx::sub(c2.x, c0.z), mult),
                x: fx::mul(fx::add(c0.y, c1.x), mult),
                y: big,
                z: fx::mul(fx::add(c1.z, c2.y), mult),
            }
        } else {
            let big: i64 = fx::tdiv128(fx::sqrt(fx::add(four_z_sq_m1, ONE)) as i128, 2) as i64;
            let mult: i64 = fx::div(16384, big);
            Quat {
                w: fx::mul(fx::sub(c0.y, c1.x), mult),
                x: fx::mul(fx::add(c2.x, c0.z), mult),
                y: fx::mul(fx::add(c1.z, c2.y), mult),
                z: big,
            }
        }
    }

    /// The orientation that looks along `dir` with `up` roughly upward.
    /// Degenerate inputs (zero `dir`, or `up` parallel to `dir`) pass through
    /// the total fixed-point operations and yield a degenerate orientation;
    /// callers wanting a valid rotation supply a non-zero direction not
    /// parallel to `up`.
    pub fn look_rotation(dir: &Vec3, up: &Vec3) -> (r: Quat)
        ensures
            r@ == spec_look_rotation(dir@, up@),
    {
        let c2 = dir.normalize().neg();
        let c0 = up.cross(&c2).normalize();
        let c1 = c2.cross(&c0);
        Quat::from_columns(&c0, &c1, &c2)
    }
}

} // verus!
