use raytrace::camera::{Camera, DEFAULT_ASPECT_FX, DEFAULT_FOV_FX};
use raytrace::fx::{HALF_PI_FX, ONE, PI_FX};
use raytrace::quat::Quat;
use raytrace::vec3::Vec3;

/// Comparison tolerance for results that pass through the fixed-point
/// trigonometric approximations (about 0.01 in real units).
const EPS: i64 = 655;

fn close(a: Vec3, b: Vec3, eps: i64) -> bool {
    a.sub(&b).length() <= eps
}

fn right() -> Vec3 {
    Vec3::new(ONE, 0, 0)
}

fn left() -> Vec3 {
    Vec3::new(-ONE, 0, 0)
}

fn up() -> Vec3 {
    Vec3::new(0, ONE, 0)
}

fn down() -> Vec3 {
    Vec3::new(0, -ONE, 0)
}

fn forward() -> Vec3 {
    Vec3::new(0, 0, ONE)
}

fn backward() -> Vec3 {
    Vec3::new(0, 0, -ONE)
}

#[test]
fn extract_axes_from_matrix() {
    let camera = Camera::default();

    // The view matrix is created fresh with the new camera
    assert!(!camera.is_view_invalid());
    assert!(close(camera.get_right(), right(), EPS));
    assert!(close(camera.get_up(), up(), EPS));
    assert!(close(camera.get_direction(), forward(), EPS));
}

#[test]
fn extract_axes_from_quat() {
    let mut camera = Camera::default();

    // Force the camera to recreate the view matrix from its position and quaternion
    camera.invalidate_view();
    assert!(close(camera.get_right(), right(), EPS));
    assert!(close(camera.get_up(), up(), EPS));
    assert!(close(camera.get_direction(), forward(), EPS));
}

#[test]
fn fixed_yaw_rotation() {
    let mut camera = Camera::default();
    assert!(camera.fixed_yaw_axis.is_some());

    // For an FPS camera, the yaw axis should remain (0,1,0) regardless of any transformations
    camera.pitch(-HALF_PI_FX);
    assert!(close(camera.get_yaw_axis(), up(), EPS));
    camera.yaw(PI_FX);

    assert!(camera.is_view_invalid());
    camera.update_view();
    assert!(!camera.is_view_invalid());

    assert!(close(camera.get_right(), left(), EPS));
    assert!(close(camera.get_up(), forward(), EPS));
    assert!(close(camera.get_direction(), up(), EPS));
}

#[test]
fn unfixed_yaw_rotation() {
    let mut camera = Camera::new(
        Vec3::zero(),
        Quat::identity(),
        DEFAULT_FOV_FX,
        DEFAULT_ASPECT_FX,
        None,
    );
    assert!(camera.fixed_yaw_axis.is_none());

    // For a freeform camera, the yaw axis should change to reflect the camera's local coordinate system
    camera.pitch(-HALF_PI_FX);
    assert!(close(camera.get_yaw_axis(), backward(), EPS));
    camera.yaw(PI_FX);

    assert!(camera.is_view_invalid());
    camera.update_view();
    assert!(!camera.is_view_invalid());

    assert!(close(camera.get_right(), left(), EPS));
    assert!(close(camera.get_up(), backward(), EPS));
    assert!(close(camera.get_direction(), down(), EPS));
}

#[test]
fn primary_ray_cast() {
    let camera = Camera::default();
    let ray = camera.primary_ray(0, 0);
    assert!(ray.origin.length() <= EPS);
    assert!(close(ray.direction, Vec3::new(0, 0, -ONE), EPS));
}

#[test]
fn primary_ray_center_is_exact() {
    // With the default camera's identity orientation the center ray is exact.
    let camera = Camera::default();
    let ray = camera.primary_ray(0, 0);
    assert_eq!(ray.origin, Vec3::zero());
    assert_eq!(ray.direction, Vec3::new(0, 0, -ONE));
}

#[test]
fn axes_agree_between_cache_and_quat() {
    // The fresh-cache path and the stale recomputation path return the same
    // axes, also away from the identity orientation.
    let mut camera = Camera::default();
    camera.pitch(-HALF_PI_FX);
    camera.yaw(PI_FX / 3);
    let stale_right = camera.get_right();
    let stale_up = camera.get_up();
    let stale_dir = camera.get_direction();
    camera.update_view();
    assert_eq!(camera.get_right(), stale_right);
    assert_eq!(camera.get_up(), stale_up);
    assert_eq!(camera.get_direction(), stale_dir);
}

#[test]
fn movement_marks_view_stale() {
    let mut camera = Camera::default();
    assert!(!camera.is_view_invalid());
    camera.move_global(&Vec3::new(ONE, 0, 0));
    assert!(camera.is_view_invalid());
    assert_eq!(*camera.get_position(), Vec3::new(ONE, 0, 0));
    camera.update_view();
    assert!(!camera.is_view_invalid());

    // With identity orientation a relative move equals a global one.
    camera.move_relative(&Vec3::new(0, 0, -ONE));
    assert_eq!(*camera.get_position(), Vec3::new(ONE, 0, -ONE));
    assert!(camera.is_view_invalid());
}

#[test]
fn set_orientation_and_persp() {
    let mut camera = Camera::default();
    let q = Quat::new(0, 0, ONE, 0);
    camera.set_orientation(&q);
    assert_eq!(*camera.get_orientation(), q);
    assert!(camera.is_view_invalid());
    camera.set_persp(HALF_PI_FX, ONE);
    let ray = camera.primary_ray(0, 0);
    // A 180-degree turn about +Y sends -Z to +Z.
    assert!(close(ray.direction, forward(), EPS));
}

#[test]
fn set_yaw_axis_normalizes() {
    let mut camera = Camera::default();
    camera.set_yaw_axis(Some(Vec3::new(0, 5 * ONE, 0)));
    assert_eq!(camera.get_yaw_axis(), up());
    camera.set_yaw_axis(None);
    // Without a fixed axis the yaw axis is the local up axis.
    assert_eq!(camera.get_yaw_axis(), camera.get_up());
}

#[test]
fn set_direction_total_on_degenerate_input() {
    // A direction parallel to the up axis degenerates the look rotation;
    // the total fixed-point arithmetic still returns and marks the cache
    // stale instead of panicking.
    let mut camera = Camera::default();
    camera.set_direction(&Vec3::new(0, ONE, 0));
    assert!(camera.is_view_invalid());
    camera.update_view();
    assert!(!camera.is_view_invalid());
}

#[test]
fn look_at_faces_target() {
    let mut camera = Camera::default();
    camera.look_at(&Vec3::new(0, 0, -10 * ONE));
    // Looking down -Z from the origin: the center primary ray goes along -Z.
    let ray = camera.primary_ray(0, 0);
    assert!(close(ray.direction, backward(), EPS));
}
