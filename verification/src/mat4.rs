//! The homogeneous view transform, stored as its four meaningful columns
//! (the last row is implicitly `0 0 0 1`).  It is always a derived value: a
//! cache of the camera's position and orientation, never authoritative.

use vstd::prelude::*;
use crate::quat::{Quat, Quats, spec_rotate};
use crate::vec3::{Vec3, Vec3s, spec_unit_x, spec_unit_y, spec_unit_z};

verus! {

/// A 4x4 homogeneous transform: three basis columns and a translation
/// column, over an implicit `0 0 0 1` bottom row.
#[derive(Clone, Copy, Debug)]
pub struct Mat4 {
    pub c0: Vec3,
    pub c1: Vec3,
    pub c2: Vec3,
    pub c3: Vec3,
}

/// The mathematical model of the transform.
pub struct Mat4s {
    pub c0: Vec3s,
    pub c1: Vec3s,
    pub c2: Vec3s,
    pub c3: Vec3s,
}

impl View for Mat4 {
    type V = Mat4s;

    open spec fn view(&self) -> Mat4s {
        Mat4s { c0: self.c0@, c1: self.c1@, c2: self.c2@, c3: self.c3@ }
    }
}

/// The view transform of an orientation and position: the basis columns are
/// the canonical axes rotated by the orientation, and the translation column
/// is the rotated position.
pub open spec fn spec_view_mat(q: Quats, pos: Vec3s) -> Mat4s {
    Mat4s {
        c0: spec_rotate(q, spec_unit_x()),
        c1: spec_rotate(q, spec_unit_y()),
        c2: spec_rotate(q, spec_unit_z()),
        c3: spec_rotate(q, pos),
    }
}

/// Builds the view transform of an orientation and position.
pub fn view_mat(q: &Quat, pos: &Vec3) -> (m: Mat4)
    ensures
        m@ == spec_view_mat(q@, pos@),
{
    Mat4 {
        c0: q.rotate(&Vec3::unit_x()),
        c1: q.rotate(&Vec3::unit_y()),
        c2: q.rotate(&Vec3::unit_z()),
        c3: q.rotate(pos),
    }
}

} // verus!
