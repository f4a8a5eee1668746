//! Geometric primitives and their ray-intersection test.  The one shape in
//! scope is the sphere; `Primitive` is the closed set of shape variants, so
//! new shapes extend the enum without touching the world or the render loop.

use vstd::prelude::*;
use std::sync::Arc;
use crate::fx;
use crate::fx::{spec_add, spec_sub, spec_mul, spec_div, spec_neg, spec_sqrt, ONE};
use crate::vec3::{Vec3, Vec3s, spec_sub3, spec_scale3, spec_dot, spec_normalize, spec_length};
use crate::ray::{Ray, Rays, Hit, Hits, spec_at, share_material};
use crate::material::{Material, Materials};

verus! {

/// A sphere: center, positive radius, and a shared material.
#[derive(Clone, Debug)]
pub struct Sphere {
    pub center: Vec3,
    pub radius: i64,
    pub material: Arc<Material>,
}

/// The mathematical model of a sphere.
pub struct SphereS {
    pub center: Vec3s,
    pub radius: int,
    pub material: Materials,
}

impl View for Sphere {
    type V = SphereS;

    open spec fn view(&self) -> SphereS {
        SphereS { center: self.center@, radius: self.radius as int, material: self.material@ }
    }
}

/// The view of an optional hit.
pub open spec fn opt_hit_view(o: Option<Hit>) -> Option<Hits> {
    match o {
        Option::Some(h) => Option::Some(h@),
        Option::None => Option::None,
    }
}

/// The ray-sphere quadratic, step for step as the executable test performs
/// it: with a unit direction the quadratic coefficient is one, so
/// `b = dot(o-c, 2*dir)`, `c = |o-c|^2 - radius^2`, and the discriminant is
/// `b^2 - 4c`.  Of the two roots the smallest non-negative one is chosen, so
/// a ray starting inside the sphere reports the exit point; a sphere
/// entirely behind the origin reports nothing.
pub open spec fn spec_sphere_hit(s: SphereS, r: Rays) -> Option<Hits> {
    let translated = spec_sub3(r.origin, s.center);
    let b = spec_dot(translated, spec_scale3(r.direction, 2 * (ONE as int)));
    let c = spec_sub(spec_dot(translated, translated), spec_mul(s.radius, s.radius));
    let disc = spec_sub(spec_mul(b, b), spec_mul(4 * (ONE as int), c));
    if disc >= 0 {
        let sq = spec_sqrt(disc);
        let d1 = spec_div(spec_add(spec_neg(b), sq), 2 * (ONE as int));
        let d2 = spec_div(spec_sub(spec_neg(b), sq), 2 * (ONE as int));
        let lo = if d1 > d2 { d2 } else { d1 };
        let hi = if d1 > d2 { d1 } else { d2 };
        let dist = if lo >= 0 { lo } else { hi };
        if dist >= 0 {
            Option::Some(Hits {
                distance: dist,
                normal: spec_normalize(spec_sub3(spec_at(r, dist), s.center)),
                material: s.material,
            })
        } else {
            Option::None
        }
    } else {
        Option::None
    }
}

impl Sphere {
    /// Builds a sphere sharing the given material.  A non-positive radius is
    /// a construction-time contract violation, rejected here rather than
    /// letting it corrupt intersection results.
    pub fn new(center: Vec3, radius: i64, material: &Arc<Material>) -> (s: Sphere)
        requires
            radius > 0,
        ensures
            s@.center == center@,
            s@.radius == radius as int,
            s@.material == material@,
    {
        Sphere { center, radius, material: share_material(material) }
    }

    /// The nearest intersection of the ray with this sphere: the smallest
    /// non-negative root of the ray-sphere quadratic, with the outward unit
    /// normal at the struck point, or nothing.
    pub fn nearest_intersection(&self, ray: &Ray) -> (res: Option<Hit>)
        ensures
            opt_hit_view(res) == spec_sphere_hit(self@, ray@),
            res matches Some(h) ==> h@.distance >= 0,
    {
        let translated = ray.origin.sub(&self.center);
        let b: i64 = translated.dot(&ray.direction.scale(2 * ONE));
        let c: i64 = fx::sub(translated.dot(&translated), fx::mul(self.radius, self.radius));
        let disc: i64 = fx::sub(fx::mul(b, b), fx::mul(4 * ONE, c));
        if disc >= 0 {
            let sq: i64 = fx::sqrt(disc);
            let d1: i64 = fx::div(fx::add(fx::neg(b), sq), 2 * ONE);
            let d2: i64 = fx::div(fx::sub(fx::neg(b), sq), 2 * ONE);
            let lo: i64 = if d1 > d2 { d2 } else { d1 };
            let hi: i64 = if d1 > d2 { d1 } else { d2 };
            let dist: i64 = if lo >= 0 { lo } else { hi };
            if dist >= 0 {
                let normal = ray.at(dist).sub(&self.center).normalize();
                Some(Hit::new(dist, normal, &self.material))
            } else {
                None
            }
        } else {
            None
        }
    }
}

/// A reported hit always lies on the ray proper: its distance is never
/// negative, for any primitive and any ray.
pub proof fn lemma_primitive_hit_nonneg(p: PrimitiveS, r: Rays)
    ensures
        spec_primitive_hit(p, r) matches Some(h) ==> h.distance >= 0,
{
}

/// A ray that passes a sphere with an offset beyond its radius misses it:
/// travelling along -Z from `(x0, 0, d)` past a sphere of radius `r` at the
/// origin with `x0 > r`, the discriminant is negative and no hit is
/// reported.  Stated for whole-number offsets, radii and heights (in units
/// of `ONE`), where the fixed-point quadratic is exact.
pub proof fn lemma_offset_ray_misses(d: int, r: int, x0: int, m: Materials)
    requires
        0 < r < x0 <= 1000000,
        -1000000 <= d <= 1000000,
    ensures
        spec_sphere_hit(
            SphereS {
                center: Vec3s { x: 0, y: 0, z: 0 },
                radius: r * (ONE as int),
                material: m,
            },
            Rays {
                origin: Vec3s { x: x0 * (ONE as int), y: 0, z: d * (ONE as int) },
                direction: Vec3s { x: 0, y: 0, z: -(ONE as int) },
            },
        ) is None,
{
    let one = ONE as int;
    let s = SphereS { center: Vec3s { x: 0, y: 0, z: 0 }, radius: r * one, material: m };
    let ray = Rays {
        origin: Vec3s { x: x0 * one, y: 0, z: d * one },
        direction: Vec3s { x: 0, y: 0, z: -one },
    };
    assert(1 <= r * r <= 1000000000000 && 1 <= x0 * x0 <= 1000000000000 && 0 <= d * d
        <= 1000000000000 && r * r < x0 * x0) by (nonlinear_arith)
        requires 0 < r < x0 <= 1000000 && -1000000 <= d <= 1000000,
    {}
    let translated = spec_sub3(ray.origin, s.center);
    assert(translated == Vec3s { x: x0 * one, y: 0, z: d * one });
    assert(0 * (2 * one) == 0 * one) by (nonlinear_arith) {}
    fx::lemma_mul_fixed(0, 2 * one, 0);
    assert((-one) * (2 * one) == (-2 * one) * one) by (nonlinear_arith) {}
    fx::lemma_mul_fixed(-one, 2 * one, -2 * one);
    let dir2 = spec_scale3(ray.direction, 2 * one);
    assert(dir2 == Vec3s { x: 0, y: 0, z: -2 * one });
    assert((x0 * one) * 0 == 0 * one && 0 * 0 == 0 * one) by (nonlinear_arith) {}
    fx::lemma_mul_fixed(x0 * one, 0, 0);
    fx::lemma_mul_fixed(0, 0, 0);
    assert((d * one) * (-2 * one) == (-2 * d * one) * one) by (nonlinear_arith) {}
    fx::lemma_mul_fixed(d * one, -2 * one, -2 * d * one);
    let b = spec_dot(translated, dir2);
    assert(b == -2 * d * one);
    assert((x0 * one) * (x0 * one) == (x0 * x0 * one) * one) by (nonlinear_arith) {}
    fx::lemma_mul_fixed(x0 * one, x0 * one, x0 * x0 * one);
    assert((d * one) * (d * one) == (d * d * one) * one) by (nonlinear_arith) {}
    fx::lemma_mul_fixed(d * one, d * one, d * d * one);
    assert((r * one) * (r * one) == (r * r * one) * one) by (nonlinear_arith) {}
    fx::lemma_mul_fixed(r * one, r * one, r * r * one);
    let c = spec_sub(spec_dot(translated, translated), spec_mul(s.radius, s.radius));
    assert(c == (x0 * x0 + d * d - r * r) * one) by {
        assert(x0 * x0 * one + d * d * one - r * r * one == (x0 * x0 + d * d - r * r) * one)
            by (nonlinear_arith) {}
    };
    assert((-2 * d * one) * (-2 * d * one) == (4 * d * d * one) * one) by (nonlinear_arith) {}
    assert(0 <= 4 * d * d * one <= 0x7fffffffffffffff && -0x7fffffffffffffff
        <= 4 * (x0 * x0 + d * d - r * r) * one <= 0x7fffffffffffffff)
        by (nonlinear_arith)
        requires 0 < r < x0 <= 1000000 && -1000000 <= d <= 1000000 && one == 65536,
    {}
    fx::lemma_mul_fixed(-2 * d * one, -2 * d * one, 4 * d * d * one);
    assert((4 * one) * ((x0 * x0 + d * d - r * r) * one) == (4 * (x0 * x0 + d * d - r * r)
        * one) * one) by (nonlinear_arith) {}
    fx::lemma_mul_fixed(
        4 * one,
        (x0 * x0 + d * d - r * r) * one,
        4 * (x0 * x0 + d * d - r * r) * one,
    );
    let disc = spec_sub(spec_mul(b, b), spec_mul(4 * one, c));
    assert(disc < 0) by {
        assert(4 * d * d * one - 4 * (x0 * x0 + d * d - r * r) * one == 4 * (r * r - x0 * x0)
            * one) by (nonlinear_arith) {}
        assert(4 * (r * r - x0 * x0) * one < 0) by (nonlinear_arith)
            requires r * r < x0 * x0 && one == 65536,
        {}
    };
}

/// A ray starting outside a sphere on its axis and aimed at its center
/// strikes the surface at distance `|origin| - radius`, with the outward
/// normal opposite the ray's direction.  Stated here for whole-number
/// radius `r` and start distance `d` (in units of `ONE`), where the
/// fixed-point quadratic is exact.
pub proof fn lemma_axis_ray_entry(d: int, r: int, m: Materials)
    requires
        0 < r < d <= 1000000,
    ensures
        spec_sphere_hit(
            SphereS {
                center: Vec3s { x: 0, y: 0, z: 0 },
                radius: r * (ONE as int),
                material: m,
            },
            Rays {
                origin: Vec3s { x: 0, y: 0, z: d * (ONE as int) },
                direction: Vec3s { x: 0, y: 0, z: -(ONE as int) },
            },
        ) == Option::Some(Hits {
            distance: (d - r) * (ONE as int),
            normal: Vec3s { x: 0, y: 0, z: ONE as int },
            material: m,
        }),
{
    let one = ONE as int;
    let s = SphereS { center: Vec3s { x: 0, y: 0, z: 0 }, radius: r * one, material: m };
    let ray = Rays {
        origin: Vec3s { x: 0, y: 0, z: d * one },
        direction: Vec3s { x: 0, y: 0, z: -one },
    };
    assert(1 <= r * r <= 1000000000000 && 1 <= d * d <= 1000000000000 && r * r < d * d)
        by (nonlinear_arith)
        requires 0 < r < d <= 1000000,
    {}
    let translated = spec_sub3(ray.origin, s.center);
    assert(translated == Vec3s { x: 0, y: 0, z: d * one });
    assert(0 * (2 * one) == 0 * one) by (nonlinear_arith) {}
    fx::lemma_mul_fixed(0, 2 * one, 0);
    assert((-one) * (2 * one) == (-2 * one) * one) by (nonlinear_arith) {}
    fx::lemma_mul_fixed(-one, 2 * one, -2 * one);
    let dir2 = spec_scale3(ray.direction, 2 * one);
    assert(dir2 == Vec3s { x: 0, y: 0, z: -2 * one });
    assert(0 * 0 == 0 * one) by (nonlinear_arith) {}
    fx::lemma_mul_fixed(0, 0, 0);
    assert((d * one) * (-2 * one) == (-2 * d * one) * one) by (nonlinear_arith) {}
    fx::lemma_mul_fixed(d * one, -2 * one, -2 * d * one);
    let b = spec_dot(translated, dir2);
    assert(b == -2 * d * one);
    assert((d * one) * (d * one) == (d * d * one) * one) by (nonlinear_arith) {}
    fx::lemma_mul_fixed(d * one, d * one, d * d * one);
    assert((r * one) * (r * one) == (r * r * one) * one) by (nonlinear_arith) {}
    fx::lemma_mul_fixed(r * one, r * one, r * r * one);
    let c = spec_sub(spec_dot(translated, translated), spec_mul(s.radius, s.radius));
    assert(c == (d * d - r * r) * one) by {
        assert(d * d * one - r * r * one == (d * d - r * r) * one) by (nonlinear_arith) {}
    };
    assert(0 < 4 * r * r * one <= 0x7fffffffffffffff && 0 < 4 * d * d * one
        <= 0x7fffffffffffffff && -0x7fffffffffffffff <= 4 * (d * d - r * r) * one
        <= 0x7fffffffffffffff) by (nonlinear_arith)
        requires 0 < r < d <= 1000000 && one == 65536,
    {}
    assert((-2 * d * one) * (-2 * d * one) == (4 * d * d * one) * one) by (nonlinear_arith) {}
    fx::lemma_mul_fixed(-2 * d * one, -2 * d * one, 4 * d * d * one);
    assert((4 * one) * ((d * d - r * r) * one) == (4 * (d * d - r * r) * one) * one)
        by (nonlinear_arith) {}
    fx::lemma_mul_fixed(4 * one, (d * d - r * r) * one, 4 * (d * d - r * r) * one);
    let disc = spec_sub(spec_mul(b, b), spec_mul(4 * one, c));
    assert(disc == 4 * r * r * one) by {
        assert(4 * d * d * one - 4 * (d * d - r * r) * one == 4 * r * r * one)
            by (nonlinear_arith) {}
    };
    assert((4 * r * r * one) * one == (2 * r * one) * (2 * r * one)) by (nonlinear_arith) {}
    fx::lemma_sqrt_fixed(4 * r * r * one, 2 * r * one);
    let sq = spec_sqrt(disc);
    assert(sq == 2 * r * one);
    assert(spec_add(spec_neg(b), sq) == 2 * (d + r) * one) by (nonlinear_arith)
        requires b == -2 * d * one && sq == 2 * r * one && 0 < r < d <= 1000000 && one == 65536,
    {}
    assert((2 * (d + r) * one) * one == ((d + r) * one) * (2 * one)) by (nonlinear_arith) {}
    fx::lemma_div_fixed(2 * (d + r) * one, 2 * one, (d + r) * one);
    assert(spec_sub(spec_neg(b), sq) == 2 * (d - r) * one) by (nonlinear_arith)
        requires b == -2 * d * one && sq == 2 * r * one && 0 < r < d <= 1000000 && one == 65536,
    {}
    assert((2 * (d - r) * one) * one == ((d - r) * one) * (2 * one)) by (nonlinear_arith) {}
    fx::lemma_div_fixed(2 * (d - r) * one, 2 * one, (d - r) * one);
    let d1 = spec_div(spec_add(spec_neg(b), sq), 2 * one);
    let d2 = spec_div(spec_sub(spec_neg(b), sq), 2 * one);
    assert(d1 == (d + r) * one && d2 == (d - r) * one);
    assert(d2 < d1 && 0 < d2) by (nonlinear_arith)
        requires d1 == (d + r) * one && d2 == (d - r) * one && 0 < r < d && one == 65536,
    {}
    let dist = d2;
    assert((-one) * ((d - r) * one) == (-(d - r) * one) * one) by (nonlinear_arith) {}
    fx::lemma_mul_fixed(-one, (d - r) * one, -(d - r) * one);
    let at = spec_at(ray, dist);
    assert(at == Vec3s { x: 0, y: 0, z: r * one }) by {
        assert(d * one + (-(d - r) * one) == r * one) by (nonlinear_arith) {}
    };
    let n0 = spec_sub3(at, s.center);
    assert(n0 == Vec3s { x: 0, y: 0, z: r * one });
    assert((r * one) * (r * one) == (r * r * one) * one) by (nonlinear_arith) {}
    assert((r * r * one) * one == (r * one) * (r * one)) by (nonlinear_arith) {}
    fx::lemma_sqrt_fixed(r * r * one, r * one);
    assert(spec_dot(n0, n0) == r * r * one);
    assert(spec_length(n0) == r * one);
    assert(0 * one == 0 * (r * one)) by (nonlinear_arith) {}
    fx::lemma_div_fixed(0, r * one, 0);
    assert((r * one) * one == one * (r * one)) by (nonlinear_arith) {}
    fx::lemma_div_fixed(r * one, r * one, one);
    assert(spec_normalize(n0) == Vec3s { x: 0, y: 0, z: one });
}

/// A ray starting exactly at a sphere's center leaves through the surface:
/// the hit is at distance `radius` and the outward normal equals the ray's
/// direction.  Stated for a whole-number radius `r` (in units of `ONE`), an
/// axis-aligned direction and any representable center, where the
/// fixed-point quadratic is exact.
pub proof fn lemma_center_ray_exit(center: Vec3s, r: int, m: Materials)
    requires
        0 < r <= 1000000,
        -0x1000000000000 <= center.x <= 0x1000000000000,
        -0x1000000000000 <= center.y <= 0x1000000000000,
        -0x1000000000000 <= center.z <= 0x1000000000000,
    ensures
        spec_sphere_hit(
            SphereS { center: center, radius: r * (ONE as int), material: m },
            Rays { origin: center, direction: Vec3s { x: 0, y: 0, z: -(ONE as int) } },
        ) == Option::Some(Hits {
            distance: r * (ONE as int),
            normal: Vec3s { x: 0, y: 0, z: -(ONE as int) },
            material: m,
        }),
{
    let one = ONE as int;
    let s = SphereS { center: center, radius: r * one, material: m };
    let ray = Rays { origin: center, direction: Vec3s { x: 0, y: 0, z: -one } };
    assert(1 <= r * r <= 1000000000000) by (nonlinear_arith)
        requires 0 < r <= 1000000,
    {}
    let translated = spec_sub3(ray.origin, s.center);
    assert(translated == Vec3s { x: 0, y: 0, z: 0 });
    assert(0 * (2 * one) == 0 * one) by (nonlinear_arith) {}
    fx::lemma_mul_fixed(0, 2 * one, 0);
    assert((-one) * (2 * one) == (-2 * one) * one) by (nonlinear_arith) {}
    fx::lemma_mul_fixed(-one, 2 * one, -2 * one);
    assert(0 * 0 == 0 * one && 0 * (-2 * one) == 0 * one) by (nonlinear_arith) {}
    fx::lemma_mul_fixed(0, 0, 0);
    fx::lemma_mul_fixed(0, -2 * one, 0);
    let b = spec_dot(translated, spec_scale3(ray.direction, 2 * one));
    assert(b == 0);
    assert((r * one) * (r * one) == (r * r * one) * one) by (nonlinear_arith) {}
    fx::lemma_mul_fixed(r * one, r * one, r * r * one);
    let c = spec_sub(spec_dot(translated, translated), spec_mul(s.radius, s.radius));
    assert(c == -(r * r * one));
    assert(0 < 4 * r * r * one <= 0x7fffffffffffffff && -0x7fffffffffffffff
        <= -4 * r * r * one) by (nonlinear_arith)
        requires 0 < r <= 1000000 && one == 65536,
    {}
    assert((4 * one) * (-(r * r * one)) == (-4 * r * r * one) * one) by (nonlinear_arith) {}
    fx::lemma_mul_fixed(4 * one, -(r * r * one), -4 * r * r * one);
    let disc = spec_sub(spec_mul(b, b), spec_mul(4 * one, c));
    assert(disc == 4 * r * r * one) by {
        assert(0 - (-4 * r * r * one) == 4 * r * r * one) by (nonlinear_arith) {}
        assert(spec_mul(0, 0) == 0);
    };
    assert((4 * r * r * one) * one == (2 * r * one) * (2 * r * one)) by (nonlinear_arith) {}
    fx::lemma_sqrt_fixed(4 * r * r * one, 2 * r * one);
    let sq = spec_sqrt(disc);
    assert(sq == 2 * r * one);
    assert((2 * r * one) * one == (r * one) * (2 * one)) by (nonlinear_arith) {}
    fx::lemma_div_fixed(2 * r * one, 2 * one, r * one);
    assert((-(2 * r * one)) * one == (-(r * one)) * (2 * one)) by (nonlinear_arith) {}
    fx::lemma_div_fixed(-(2 * r * one), 2 * one, -(r * one));
    let d1 = spec_div(spec_add(spec_neg(b), sq), 2 * one);
    let d2 = spec_div(spec_sub(spec_neg(b), sq), 2 * one);
    assert(d1 == r * one && d2 == -(r * one));
    let dist = d1;
    assert((-one) * (r * one) == (-(r * one)) * one) by (nonlinear_arith) {}
    fx::lemma_mul_fixed(-one, r * one, -(r * one));
    let at = spec_at(ray, dist);
    assert(at == Vec3s { x: center.x, y: center.y, z: center.z - r * one });
    let n0 = spec_sub3(at, s.center);
    assert(n0 == Vec3s { x: 0, y: 0, z: -(r * one) });
    assert((-(r * one)) * (-(r * one)) == (r * r * one) * one) by (nonlinear_arith) {}
    fx::lemma_mul_fixed(-(r * one), -(r * one), r * r * one);
    assert((r * r * one) * one == (r * one) * (r * one)) by (nonlinear_arith) {}
    fx::lemma_sqrt_fixed(r * r * one, r * one);
    assert(spec_dot(n0, n0) == r * r * one);
    assert(spec_length(n0) == r * one);
    assert(0 * one == 0 * (r * one)) by (nonlinear_arith) {}
    fx::lemma_div_fixed(0, r * one, 0);
    assert((-(r * one)) * one == (-one) * (r * one)) by (nonlinear_arith) {}
    fx::lemma_div_fixed(-(r * one), r * one, -one);
    assert(spec_normalize(n0) == Vec3s { x: 0, y: 0, z: -one });
}

/// The closed set of primitive shapes a world can hold.
#[derive(Clone, Debug)]
pub enum Primitive {
    Sphere(Sphere),
}

/// The mathematical model of a primitive.
pub enum PrimitiveS {
    Sphere(SphereS),
}

impl View for Primitive {
    type V = PrimitiveS;

    open spec fn view(&self) -> PrimitiveS {
        match self {
            Primitive::Sphere(s) => PrimitiveS::Sphere(s@),
        }
    }
}

/// The nearest intersection of a ray with one primitive.
pub open spec fn spec_primitive_hit(p: PrimitiveS, r: Rays) -> Option<Hits> {
    match p {
        PrimitiveS::Sphere(s) => spec_sphere_hit(s, r),
    }
}

impl Primitive {
    /// The nearest intersection of the ray with this primitive, or nothing.
    pub fn nearest_intersection(&self, ray: &Ray) -> (res: Option<Hit>)
        ensures
            opt_hit_view(res) == spec_primitive_hit(self@, ray@),
            res matches Some(h) ==> h@.distance >= 0,
    {
        match self {
            Primitive::Sphere(s) => s.nearest_intersection(ray),
        }
    }
}

} // verus!
