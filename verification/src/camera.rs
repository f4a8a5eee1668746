//! A quaternion-based camera with a lazily cached view transform.
//!
//! The cache carries an explicit age tag: every mutation of position or
//! orientation marks it stale, and it is rebuilt on demand.  The central
//! invariant, `spec_cam_wf`, says a fresh cache always equals the transform
//! derived from position and orientation — so the axis queries return the
//! same vectors whether they read the cached columns or rotate the canonical
//! axes directly, which `lemma_axes_consistent` states.
//!
//! Primary rays never read the cache: they are computed from position and
//! orientation alone, so they are correct even while the cache is stale.

use vstd::prelude::*;
use crate::fx;
use crate::fx::{spec_div, spec_mul, spec_tan, ONE, THIRD_PI_FX};
use crate::vec3::{Vec3, Vec3s, spec_add3, spec_sub3, spec_normalize, spec_length, spec_dot, spec_unit_x, spec_unit_y, spec_unit_z};
use crate::quat::{Quat, Quats, spec_qmul, spec_rotate, spec_from_axis_angle, spec_look_rotation, spec_identity};
use crate::mat4::{Mat4, Mat4s, spec_view_mat, view_mat};
use crate::ray::{Ray, Rays};

verus! {

/// The default vertical field of view: 60 degrees.
pub const DEFAULT_FOV_FX: i64 = THIRD_PI_FX;

/// The default aspect ratio: 16:9 in fixed point.
pub const DEFAULT_ASPECT_FX: i64 = 116508;

/// A cached value with an age tag: `New` is up to date, `Old` is stale and
/// kept only as the last known value.
#[derive(Clone, Copy, Debug)]
pub enum Age {
    Old(Mat4),
    New(Mat4),
}

/// The projection parameters: vertical field of view in radians (scaled by
/// `ONE`) and aspect ratio as width over height.
#[derive(Clone, Copy, Debug)]
pub enum Projection {
    Perspective(i64, i64),
}

/// The camera: position, orientation, an optional fixed yaw axis, the
/// age-tagged cached view transform, and the projection.
#[derive(Clone, Copy, Debug)]
pub struct Camera {
    pub position: Vec3,
    pub orientation: Quat,
    pub fixed_yaw_axis: Option<Vec3>,
    pub view: Age,
    pub proj: Projection,
}

/// The mathematical model of a camera.
pub struct CameraV {
    pub position: Vec3s,
    pub orientation: Quats,
    pub fixed_yaw_axis: Option<Vec3s>,
    pub view_fresh: bool,
    pub view_mat: Mat4s,
    pub fov: int,
    pub aspect: int,
}

/// The view of an optional vector.
pub open spec fn opt_vec3_view(o: Option<Vec3>) -> Option<Vec3s> {
    match o {
        Option::Some(v) => Option::Some(v@),
        Option::None => Option::None,
    }
}

impl View for Camera {
    type V = CameraV;

    open spec fn view(&self) -> CameraV {
        CameraV {
            position: self.position@,
            orientation: self.orientation@,
            fixed_yaw_axis: opt_vec3_view(self.fixed_yaw_axis),
            view_fresh: self.view is New,
            view_mat: match self.view {
                Age::Old(m) => m@,
                Age::New(m) => m@,
            },
            fov: match self.proj {
                Projection::Perspective(f, _) => f as int,
            },
            aspect: match self.proj {
                Projection::Perspective(_, a) => a as int,
            },
        }
    }
}

/// The camera's central invariant: a fresh cache equals the transform
/// derived from orientation and position.
pub open spec fn spec_cam_wf(c: CameraV) -> bool {
    c.view_fresh ==> c.view_mat == spec_view_mat(c.orientation, c.position)
}

/// The local right axis: the cached first column when fresh, else the
/// rotated canonical +X axis.
pub open spec fn spec_get_right(c: CameraV) -> Vec3s {
    if c.view_fresh {
        c.view_mat.c0
    } else {
        spec_rotate(c.orientation, spec_unit_x())
    }
}

/// The local up axis: the cached second column when fresh, else the rotated
/// canonical +Y axis.
pub open spec fn spec_get_up(c: CameraV) -> Vec3s {
    if c.view_fresh {
        c.view_mat.c1
    } else {
        spec_rotate(c.orientation, spec_unit_y())
    }
}

/// The local direction axis: the cached third column when fresh, else the
/// rotated canonical +Z axis.
pub open spec fn spec_get_direction(c: CameraV) -> Vec3s {
    if c.view_fresh {
        c.view_mat.c2
    } else {
        spec_rotate(c.orientation, spec_unit_z())
    }
}

/// The axis `yaw` rotates around: the fixed axis if one is configured, else
/// the local up axis.
pub open spec fn spec_get_yaw_axis(c: CameraV) -> Vec3s {
    match c.fixed_yaw_axis {
        Option::Some(a) => a,
        Option::None => spec_get_up(c),
    }
}

/// A freshly constructed camera: the yaw axis normalized, the cache fresh.
pub open spec fn spec_new_cam(pos: Vec3s, q: Quats, fov: int, aspect: int, yaw_axis: Option<Vec3s>) -> CameraV {
    CameraV {
        position: pos,
        orientation: q,
        fixed_yaw_axis: match yaw_axis {
            Option::Some(v) => Option::Some(spec_normalize(v)),
            Option::None => Option::None,
        },
        view_fresh: true,
        view_mat: spec_view_mat(q, pos),
        fov: fov,
        aspect: aspect,
    }
}

/// The same camera with its cache marked stale.
pub open spec fn spec_invalidate_cam(c: CameraV) -> CameraV {
    CameraV { view_fresh: false, ..c }
}

/// Prepending an incremental rotation to the orientation; the cache goes
/// stale.
pub open spec fn spec_rotate_cam(c: CameraV, q: Quats) -> CameraV {
    CameraV { orientation: spec_qmul(q, c.orientation), view_fresh: false, ..c }
}

/// A pitch: rotation around the current local right axis.
pub open spec fn spec_pitch(c: CameraV, rads: int) -> CameraV {
    spec_rotate_cam(c, spec_from_axis_angle(spec_get_right(c), rads))
}

/// A yaw: rotation around the yaw axis.
pub open spec fn spec_yaw(c: CameraV, rads: int) -> CameraV {
    spec_rotate_cam(c, spec_from_axis_angle(spec_get_yaw_axis(c), rads))
}

/// A roll: rotation around the current local direction axis.
pub open spec fn spec_roll(c: CameraV, rads: int) -> CameraV {
    spec_rotate_cam(c, spec_from_axis_angle(spec_get_direction(c), rads))
}

/// Reorienting to look along `dir`, upward along the fixed yaw axis if one
/// is configured, else along the current local up axis.
pub open spec fn spec_set_direction(c: CameraV, dir: Vec3s) -> CameraV {
    let up = match c.fixed_yaw_axis {
        Option::Some(u) => u,
        Option::None => spec_get_up(c),
    };
    CameraV { orientation: spec_look_rotation(dir, up), view_fresh: false, ..c }
}

/// A rebuilt cache: recomputed from orientation and position if stale, kept
/// as it is if fresh.
pub open spec fn spec_update_view(c: CameraV) -> CameraV {
    if c.view_fresh {
        c
    } else {
        CameraV { view_fresh: true, view_mat: spec_view_mat(c.orientation, c.position), ..c }
    }
}

/// The primary ray through normalized screen coordinates `(x, y)`
/// (fixed-point, in `[-ONE, ONE]` with `(0, 0)` the screen center): a
/// camera-space direction `(x*aspect*tan(fov/2), y*tan(fov/2), -1)`,
/// normalized and rotated into world space, cast from the position.  Only
/// position and orientation enter — never the cached transform.
pub open spec fn spec_primary_ray(c: CameraV, x: int, y: int) -> Rays {
    let tan_half = spec_tan(spec_div(c.fov, 2 * (ONE as int)));
    let px = spec_mul(spec_mul(x, c.aspect), tan_half);
    let py = spec_mul(y, tan_half);
    Rays {
        origin: c.position,
        direction: spec_rotate(
            c.orientation,
            spec_normalize(Vec3s { x: px, y: py, z: -(ONE as int) }),
        ),
    }
}

impl Camera {
    /// Builds a camera; the view cache starts fresh.  Degenerate
    /// configurations — a zero-length yaw axis, a non-positive field of view
    /// or aspect ratio — are construction-time contract violations.
    pub fn new(pos: Vec3, orientation: Quat, fov: i64, aspect: i64, yaw_axis: Option<Vec3>) -> (c: Camera)
        requires
            fov > 0,
            aspect > 0,
            yaw_axis matches Some(v) ==> spec_length(v@) > 0,
        ensures
            c@ == spec_new_cam(pos@, orientation@, fov as int, aspect as int, opt_vec3_view(yaw_axis)),
            spec_cam_wf(c@),
    {
        Camera {
            position: pos,
            orientation: orientation,
            fixed_yaw_axis: match yaw_axis {
                Some(v) => Some(v.normalize()),
                None => None,
            },
            view: Age::New(view_mat(&orientation, &pos)),
            proj: Projection::Perspective(fov, aspect),
        }
    }

    /// Builds a first-person camera: the yaw axis fixed to the world up
    /// axis.
    pub fn new_fps(pos: Vec3, orientation: Quat, fov: i64, aspect: i64) -> (c: Camera)
        requires
            fov > 0,
            aspect > 0,
        ensures
            c@ == spec_new_cam(
                pos@,
                orientation@,
                fov as int,
                aspect as int,
                Option::Some(spec_unit_y()),
            ),
            spec_cam_wf(c@),
    {
        proof {
            lemma_unit_y_length();
        }
        Camera::new(pos, orientation, fov, aspect, Some(Vec3::unit_y()))
    }

    /// The camera's position.
    pub fn get_position(&self) -> (r: &Vec3)
        ensures
            r@ == self@.position,
    {
        &self.position
    }

    /// Moves to an absolute position; the cached view goes stale.
    pub fn set_position(&mut self, pos: &Vec3)
        ensures
            final(self)@ == (CameraV { position: pos@, view_fresh: false, ..old(self)@ }),
            spec_cam_wf(final(self)@),
    {
        self.position = *pos;
        self.invalidate_view();
    }

    /// Moves by a world-space offset; the cached view goes stale.
    pub fn move_global(&mut self, offset: &Vec3)
        ensures
            final(self)@ == (CameraV {
                position: spec_add3(old(self)@.position, offset@),
                view_fresh: false,
                ..old(self)@
            }),
            spec_cam_wf(final(self)@),
    {
        self.position = self.position.add(offset);
        self.invalidate_view();
    }

    /// Moves by a camera-space offset, rotated into world space; the cached
    /// view goes stale.
    pub fn move_relative(&mut self, offset: &Vec3)
        ensures
            final(self)@ == (CameraV {
                position: spec_add3(
                    old(self)@.position,
                    spec_rotate(old(self)@.orientation, offset@),
                ),
                view_fresh: false,
                ..old(self)@
            }),
            spec_cam_wf(final(self)@),
    {
        self.position = self.position.add(&self.orientation.rotate(offset));
        self.invalidate_view();
    }

    /// The local right axis, from the cached column when fresh, else from
    /// the orientation; under the cache invariant the two paths agree.
    pub fn get_right(&self) -> (r: Vec3)
        ensures
            r@ == spec_get_right(self@),
            spec_cam_wf(self@) ==> r@ == spec_rotate(self@.orientation, spec_unit_x()),
    {
        match &self.view {
            Age::New(m) => m.c0,
            Age::Old(_) => self.orientation.rotate(&Vec3::unit_x()),
        }
    }

    /// The local up axis; under the cache invariant the two paths agree.
    pub fn get_up(&self) -> (r: Vec3)
        ensures
            r@ == spec_get_up(self@),
            spec_cam_wf(self@) ==> r@ == spec_rotate(self@.orientation, spec_unit_y()),
    {
        match &self.view {
            Age::New(m) => m.c1,
            Age::Old(_) => self.orientation.rotate(&Vec3::unit_y()),
        }
    }

    /// The local direction axis; under the cache invariant the two paths
    /// agree.
    pub fn get_direction(&self) -> (r: Vec3)
        ensures
            r@ == spec_get_direction(self@),
            spec_cam_wf(self@) ==> r@ == spec_rotate(self@.orientation, spec_unit_z()),
    {
        match &self.view {
            Age::New(m) => m.c2,
            Age::Old(_) => self.orientation.rotate(&Vec3::unit_z()),
        }
    }

    /// Reorients to look along `dir`; the cached view goes stale.
    pub fn set_direction(&mut self, dir: &Vec3)
        ensures
            final(self)@ == spec_set_direction(old(self)@, dir@),
            spec_cam_wf(final(self)@),
    {
        let up: Vec3 = match self.fixed_yaw_axis {
            Some(u) => u,
            None => self.get_up(),
        };
        self.orientation = Quat::look_rotation(dir, &up);
        self.invalidate_view();
    }

    /// Reorients to look at a target point; the cached view goes stale.
    pub fn look_at(&mut self, target: &Vec3)
        ensures
            final(self)@ == spec_set_direction(
                old(self)@,
                spec_sub3(target@, old(self)@.position),
            ),
            spec_cam_wf(final(self)@),
    {
        let d = target.sub(&self.position);
        self.set_direction(&d);
    }

    /// The camera's orientation.
    pub fn get_orientation(&self) -> (r: &Quat)
        ensures
            r@ == self@.orientation,
    {
        &self.orientation
    }

    /// Replaces the orientation; the cached view goes stale.
    pub fn set_orientation(&mut self, q: &Quat)
        ensures
            final(self)@ == (CameraV { orientation: q@, view_fresh: false, ..old(self)@ }),
            spec_cam_wf(final(self)@),
    {
        self.orientation = *q;
        self.invalidate_view();
    }

    /// Prepends an incremental rotation; the cached view goes stale.
    pub fn rotate(&mut self, q: &Quat)
        ensures
            final(self)@ == spec_rotate_cam(old(self)@, q@),
            spec_cam_wf(final(self)@),
    {
        self.orientation = q.qmul(&self.orientation);
        self.invalidate_view();
    }

    /// Rotates counterclockwise around the current local right axis.
    pub fn pitch(&mut self, rads: i64)
        ensures
            final(self)@ == spec_pitch(old(self)@, rads as int),
            spec_cam_wf(final(self)@),
    {
        let axis = self.get_right();
        let q = Quat::from_axis_angle(&axis, rads);
        self.rotate(&q);
    }

    /// Rotates counterclockwise around the yaw axis: the fixed axis if one
    /// is configured, else the current local up axis.
    pub fn yaw(&mut self, rads: i64)
        ensures
            final(self)@ == spec_yaw(old(self)@, rads as int),
            spec_cam_wf(final(self)@),
    {
        let axis = self.get_yaw_axis();
        let q = Quat::from_axis_angle(&axis, rads);
        self.rotate(&q);
    }

    /// Rotates counterclockwise around the current local direction axis.
    pub fn roll(&mut self, rads: i64)
        ensures
            final(self)@ == spec_roll(old(self)@, rads as int),
            spec_cam_wf(final(self)@),
    {
        let axis = self.get_direction();
        let q = Quat::from_axis_angle(&axis, rads);
        self.rotate(&q);
    }

    /// The axis `yaw` rotates around.
    pub fn get_yaw_axis(&self) -> (r: Vec3)
        ensures
            r@ == spec_get_yaw_axis(self@),
    {
        match self.fixed_yaw_axis {
            Some(a) => a,
            None => self.get_up(),
        }
    }

    /// Configures or clears the fixed yaw axis, normalizing it; a
    /// zero-length axis is a contract violation.
    pub fn set_yaw_axis(&mut self, axis: Option<Vec3>)
        requires
            axis matches Some(v) ==> spec_length(v@) > 0,
        ensures
            final(self)@ == (CameraV {
                fixed_yaw_axis: match opt_vec3_view(axis) {
                    Option::Some(v) => Option::Some(spec_normalize(v)),
                    Option::None => Option::None,
                },
                ..old(self)@
            }),
            spec_cam_wf(old(self)@) ==> spec_cam_wf(final(self)@),
    {
        self.fixed_yaw_axis = match axis {
            Some(v) => Some(v.normalize()),
            None => None,
        };
    }

    /// The cached view transform, possibly stale; callers wanting freshness
    /// call `update_view` first.
    pub fn get_view(&self) -> (r: &Mat4)
        ensures
            r@ == self@.view_mat,
    {
        match &self.view {
            Age::Old(m) => m,
            Age::New(m) => m,
        }
    }

    /// Rebuilds the cached view transform if it is stale; a no-op if fresh.
    pub fn update_view(&mut self)
        ensures
            final(self)@ == spec_update_view(old(self)@),
            spec_cam_wf(old(self)@) ==> spec_cam_wf(final(self)@),
            !old(self)@.view_fresh ==> spec_cam_wf(final(self)@),
            final(self)@.view_fresh,
    {
        self.view = match self.view {
            Age::New(m) => Age::New(m),
            Age::Old(_) => Age::New(view_mat(&self.orientation, &self.position)),
        };
    }

    /// Whether the cached view transform is stale.
    pub fn is_view_invalid(&self) -> (r: bool)
        ensures
            r == !self@.view_fresh,
    {
        match &self.view {
            Age::Old(_) => true,
            Age::New(_) => false,
        }
    }

    /// Marks the cached view transform stale, keeping the last known value.
    pub fn invalidate_view(&mut self)
        ensures
            final(self)@ == spec_invalidate_cam(old(self)@),
            spec_cam_wf(final(self)@),
    {
        if let Age::New(m) = self.view {
            self.view = Age::Old(m);
        }
    }

    /// Replaces the projection parameters; non-positive values are a
    /// contract violation.
    pub fn set_persp(&mut self, fov: i64, aspect: i64)
        requires
            fov > 0,
            aspect > 0,
        ensures
            final(self)@ == (CameraV { fov: fov as int, aspect: aspect as int, ..old(self)@ }),
            spec_cam_wf(old(self)@) ==> spec_cam_wf(final(self)@),
    {
        self.proj = Projection::Perspective(fov, aspect);
    }

    /// The primary ray through normalized screen coordinates `(x, y)`:
    /// `(-ONE, -ONE)` is the bottom left, `(0, 0)` the center, `(ONE, ONE)`
    /// the top right.  Depends only on position and orientation, never on
    /// the cached view transform, so it is correct even while the cache is
    /// stale.
    pub fn primary_ray(&self, x: i64, y: i64) -> (r: Ray)
        ensures
            r@ == spec_primary_ray(self@, x as int, y as int),
    {
        match &self.proj {
            Projection::Perspective(fov, aspect) => {
                let tan_half: i64 = fx::tan(fx::div(*fov, 2 * ONE));
                let px: i64 = fx::mul(fx::mul(x, *aspect), tan_half);
                let py: i64 = fx::mul(y, tan_half);
                let dir = self.orientation.rotate(&Vec3::new(px, py, -ONE).normalize());
                Ray::new(self.position, dir)
            }
        }
    }
}

/// An FPS camera at the origin, facing down the z axis with y up;
/// 60 degree field of view, 16:9 aspect ratio.
impl Default for Camera {
    fn default() -> (c: Camera)
        ensures
            c@ == spec_new_cam(
                Vec3s { x: 0, y: 0, z: 0 },
                spec_identity(),
                DEFAULT_FOV_FX as int,
                DEFAULT_ASPECT_FX as int,
                Option::Some(spec_unit_y()),
            ),
            spec_cam_wf(c@),
    {
        Camera::new_fps(Vec3::zero(), Quat::identity(), DEFAULT_FOV_FX, DEFAULT_ASPECT_FX)
    }
}

/// The canonical up axis has length exactly `ONE`.
proof fn lemma_unit_y_length()
    ensures
        spec_length(spec_unit_y()) == ONE as int,
{
    fx::lemma_tdiv_exact(ONE as int, ONE as int);
    assert(spec_dot(spec_unit_y(), spec_unit_y()) == ONE as int);
    fx::lemma_isqrt(0x100000000);
    assert(65536 * 65536 <= 0x100000000 < 65537 * 65537) by (nonlinear_arith) {}
    fx::lemma_isqrt_unique(0x100000000, 65536, fx::isqrt(0x100000000));
}

/// Axis extraction is self-consistent: under the cache invariant the fresh
/// path (reading cached columns) and the direct path (rotating the
/// canonical axes by the orientation) yield the same vectors.
pub proof fn lemma_axes_consistent(c: CameraV)
    requires
        spec_cam_wf(c),
    ensures
        spec_get_right(c) == spec_rotate(c.orientation, spec_unit_x()),
        spec_get_up(c) == spec_rotate(c.orientation, spec_unit_y()),
        spec_get_direction(c) == spec_rotate(c.orientation, spec_unit_z()),
{
}

/// Axis extraction survives a cache round trip: invalidating the view and
/// rebuilding it leaves all three axis queries exactly where they were, at
/// every stage — fresh, stale, and recomputed.
pub proof fn lemma_axes_survive_rebuild(c: CameraV)
    requires
        spec_cam_wf(c),
    ensures
        spec_get_right(spec_invalidate_cam(c)) == spec_get_right(c),
        spec_get_up(spec_invalidate_cam(c)) == spec_get_up(c),
        spec_get_direction(spec_invalidate_cam(c)) == spec_get_direction(c),
        spec_get_right(spec_update_view(spec_invalidate_cam(c))) == spec_get_right(c),
        spec_get_up(spec_update_view(spec_invalidate_cam(c))) == spec_get_up(c),
        spec_get_direction(spec_update_view(spec_invalidate_cam(c))) == spec_get_direction(c),
{
}

/// A camera with a fixed yaw axis keeps it across rotations: after any
/// pitch followed by any yaw, the yaw axis is still exactly the configured
/// axis.
pub proof fn lemma_fixed_yaw_axis_stable(c: CameraV, a: int, b: int)
    requires
        c.fixed_yaw_axis is Some,
    ensures
        spec_get_yaw_axis(spec_yaw(spec_pitch(c, a), b)) == c.fixed_yaw_axis->Some_0,
{
}

/// A camera without a fixed yaw axis lets the yaw axis track its local up
/// axis: after any pitch followed by any yaw, the yaw axis is the new
/// orientation's rotated canonical up axis.
pub proof fn lemma_free_yaw_axis_tracks_up(c: CameraV, a: int, b: int)
    requires
        c.fixed_yaw_axis is None,
    ensures
        spec_get_yaw_axis(spec_yaw(spec_pitch(c, a), b)) == spec_rotate(
            spec_yaw(spec_pitch(c, a), b).orientation,
            spec_unit_y(),
        ),
{
}

/// The primary ray through the screen center starts at the camera's
/// position and looks along the camera's forward viewing axis: the rotated
/// canonical -Z axis.
pub proof fn lemma_primary_ray_center(c: CameraV)
    ensures
        spec_primary_ray(c, 0, 0).origin == c.position,
        spec_primary_ray(c, 0, 0).direction == spec_rotate(
            c.orientation,
            Vec3s { x: 0, y: 0, z: -(ONE as int) },
        ),
{
    let tan_half = spec_tan(spec_div(c.fov, 2 * (ONE as int)));
    assert(0 * c.aspect == 0) by (nonlinear_arith) {}
    assert(spec_mul(0, c.aspect) == 0);
    assert(0 * tan_half == 0) by (nonlinear_arith) {}
    assert(spec_mul(0, tan_half) == 0);
    let v = Vec3s { x: 0, y: 0, z: -(ONE as int) };
    assert((-65536) * (-65536) == 65536 * 65536) by (nonlinear_arith) {}
    fx::lemma_tdiv_exact(ONE as int, ONE as int);
    assert(spec_dot(v, v) == ONE as int);
    fx::lemma_isqrt(0x100000000);
    assert(65536 * 65536 <= 0x100000000 < 65537 * 65537) by (nonlinear_arith) {}
    fx::lemma_isqrt_unique(0x100000000, 65536, fx::isqrt(0x100000000));
    assert(spec_length(v) == ONE as int);
    fx::lemma_tdiv_exact(-65536, 65536);
    assert(spec_normalize(v) == v);
}

/// For a camera with the identity orientation — the default camera among
/// them — the center primary ray starts exactly at the camera's position
/// and its direction is exactly the viewing axis `(0, 0, -1)`.
pub proof fn lemma_default_primary_ray_center(c: CameraV)
    requires
        c.orientation == spec_identity(),
    ensures
        spec_primary_ray(c, 0, 0).origin == c.position,
        spec_primary_ray(c, 0, 0).direction == (Vec3s { x: 0, y: 0, z: -(ONE as int) }),
{
    lemma_primary_ray_center(c);
    crate::quat::lemma_rotate_identity(Vec3s { x: 0, y: 0, z: -(ONE as int) });
}

} // verus!
