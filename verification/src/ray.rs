//! Rays and intersection records.  A ray owns an origin and a direction that
//! callers supply normalized; a hit reports the distance along the ray, the
//! outward surface normal and a shared handle to the surface's material.

use vstd::prelude::*;
use std::sync::Arc;
use crate::vec3::{Vec3, Vec3s, spec_add3, spec_scale3};
use crate::material::{Material, Materials};

verus! {

/// Relies on std's `Arc::clone`: the returned handle refers to the same
/// shared value.
#[verifier::external_body]
pub(crate) fn share_material(m: &Arc<Material>) -> (r: Arc<Material>)
    ensures
        r == *m,
{
    m.clone()
}

/// A half-line: origin plus non-negative multiples of the direction.
/// The intersection contracts expect `direction` to be unit length.
#[derive(Clone, Copy, Debug)]
pub struct Ray {
    pub origin: Vec3,
    pub direction: Vec3,
}

/// The mathematical model of a ray.
pub struct Rays {
    pub origin: Vec3s,
    pub direction: Vec3s,
}

impl View for Ray {
    type V = Rays;

    open spec fn view(&self) -> Rays {
        Rays { origin: self.origin@, direction: self.direction@ }
    }
}

/// The point reached after travelling `t` along the ray.
pub open spec fn spec_at(r: Rays, t: int) -> Vec3s {
    spec_add3(r.origin, spec_scale3(r.direction, t))
}

impl Ray {
    /// Builds a ray; the caller supplies a normalized direction.
    pub fn new(origin: Vec3, direction: Vec3) -> (r: Ray)
        ensures
            r@.origin == origin@,
            r@.direction == direction@,
    {
        Ray { origin, direction }
    }

    /// The point at the given distance along the ray.
    pub fn at(&self, distance: i64) -> (p: Vec3)
        ensures
            p@ == spec_at(self@, distance as int),
    {
        self.origin.add(&self.direction.scale(distance))
    }
}

/// A surface intersection: distance along the ray, outward unit normal, and
/// a shared handle to the surface's material.
#[derive(Clone, Debug)]
pub struct Hit {
    pub distance: i64,
    pub normal: Vec3,
    pub material: Arc<Material>,
}

/// The mathematical model of a hit.
pub struct Hits {
    pub distance: int,
    pub normal: Vec3s,
    pub material: Materials,
}

impl View for Hit {
    type V = Hits;

    open spec fn view(&self) -> Hits {
        Hits { distance: self.distance as int, normal: self.normal@, material: self.material@ }
    }
}

impl Hit {
    /// Builds a hit sharing the given material.
    pub fn new(distance: i64, normal: Vec3, material: &Arc<Material>) -> (h: Hit)
        ensures
            h@.distance == distance as int,
            h@.normal == normal@,
            h@.material == material@,
    {
        Hit { distance, normal, material: share_material(material) }
    }
}

} // verus!
