use std::sync::Arc;
use raytrace::camera::Camera;
use raytrace::color::{Color3, Rgb8};
use raytrace::fx::{self, HALF_PI_FX, ONE, PI_FX, TWO_PI_FX};
use raytrace::material::Material;
use raytrace::primitive::{Primitive, Sphere};
use raytrace::ray::Ray;
use raytrace::screen::Screen;
use raytrace::vec3::Vec3;
use raytrace::world::World;

fn sample_world() -> World {
    let material = Arc::new(Material::default());
    let sphere = Primitive::Sphere(Sphere::new(Vec3::new(0, 0, -5 * ONE), 2 * ONE, &material));
    World { primitives: vec![sphere] }
}

#[test]
fn render_sequential_and_parallel_agree() {
    let camera = Camera::default();
    let world = sample_world();
    let screen = Screen::new(16, 9);
    let sequential = screen.render(&camera, &world);
    let parallel = screen.render_parallel(&camera, &world);
    assert_eq!(sequential.len(), 16 * 9);
    assert_eq!(sequential, parallel);
    // The buffers are not trivially empty: the pixel nearest the screen
    // center looks at the sphere and is lit.
    let center = parallel[4 * 16 + 8];
    assert!(center.r > 0 || center.g > 0 || center.b > 0);
}

#[test]
fn render_hits_the_sphere_in_the_middle() {
    let camera = Camera::default();
    let world = sample_world();
    let screen = Screen::new(9, 9);
    let buffer = screen.render(&camera, &world);
    // The center pixel looks straight at the sphere and is lit; the corner
    // rays miss it and stay black.
    let center = buffer[4 * 9 + 4];
    assert!(center.r > 0 || center.g > 0 || center.b > 0);
    assert_eq!(buffer[0], Rgb8 { r: 0, g: 0, b: 0 });
    assert_eq!(buffer[9 * 9 - 1], Rgb8 { r: 0, g: 0, b: 0 });
}

#[test]
fn shade_stays_inside_unit_range() {
    let material = Material::default();
    let ray = Ray::new(Vec3::new(0, 0, 2 * ONE), Vec3::new(0, 0, -ONE));
    let normal = Vec3::new(0, 0, ONE);
    let light = Vec3::new(ONE, ONE, ONE).normalize();
    let c = material.shade(&ray, &normal, &light);
    assert!(0 <= c.r && c.r <= ONE);
    assert!(0 <= c.g && c.g <= ONE);
    assert!(0 <= c.b && c.b <= ONE);

    // Grazing geometry: the specular denominator vanishes; the guarded
    // arithmetic keeps the result well-defined and in range.
    let grazing_normal = Vec3::new(ONE, 0, 0);
    let g = material.shade(&ray, &grazing_normal, &light);
    assert!(0 <= g.r && g.r <= ONE);
    assert!(0 <= g.g && g.g <= ONE);
    assert!(0 <= g.b && g.b <= ONE);

    // A metallic mirror-like material on the same geometry.
    let metal = Material::new(0, ONE, Color3::new(ONE, ONE, ONE), Color3::gray(0), Color3::gray(0), 3 * ONE);
    let m = metal.shade(&ray, &normal, &light);
    assert!(0 <= m.r && m.r <= ONE);
    assert!(0 <= m.g && m.g <= ONE);
    assert!(0 <= m.b && m.b <= ONE);
}

#[test]
fn shade_lit_face_is_colored() {
    // The default material is pink: facing the light head-on, red and blue
    // come out positive and green stays zero.
    let material = Material::default();
    let ray = Ray::new(Vec3::new(0, 0, 2 * ONE), Vec3::new(0, 0, -ONE));
    let normal = Vec3::new(0, 0, ONE);
    let light = Vec3::new(0, 0, ONE);
    let c = material.shade(&ray, &normal, &light);
    assert!(c.r > 0);
    assert!(c.b > 0);
    // Green has no diffuse term (the albedo's green channel is zero), only
    // the gray specular highlight, so red stays strictly brighter.
    assert!(c.r > c.g);
}

#[test]
fn color_byte_conversions_are_exact() {
    let c = Color3::new(ONE / 2, 0, 3 * ONE);
    // round(0.5 * 255) = 128; negative-free zero; above one clamps to 255.
    assert_eq!(c.to_rgb8(), Rgb8 { r: 128, g: 0, b: 255 });
    let d = Color3::new(-ONE, ONE, 65536 / 255 / 2);
    assert_eq!(d.to_rgb8(), Rgb8 { r: 0, g: 255, b: 0 });

    let back = Color3::from_rgb8(Rgb8 { r: 255, g: 0, b: 128 });
    assert_eq!(back.r, ONE);
    assert_eq!(back.g, 0);
    assert_eq!(back.b, 128 * ONE / 255);
}

#[test]
fn color_arithmetic_exact_values() {
    let a = Color3::new(ONE / 2, ONE / 4, 0);
    let b = Color3::gray(ONE / 2);
    assert_eq!(a.add(&b), Color3::new(ONE, 3 * ONE / 4, ONE / 2));
    assert_eq!(a.mul(&b), Color3::new(ONE / 4, ONE / 8, 0));
    assert_eq!(a.scale(2 * ONE), Color3::new(ONE, ONE / 2, 0));
    assert_eq!(a.mix(&b, ONE), b);
    assert_eq!(a.mix(&b, 0), a);
    assert_eq!(Color3::gray(0).mix(&Color3::gray(ONE), ONE / 2), Color3::gray(ONE / 2));

    let mut clamped = Color3::new(-ONE, 2 * ONE, ONE / 2);
    clamped.clamp();
    assert_eq!(clamped, Color3::new(0, ONE, ONE / 2));
    assert_eq!(Color3::new(-ONE, 2 * ONE, ONE / 2).clamped(), clamped);
    assert_eq!(Color3::from_vec3(&Vec3::new(1, 2, 3)), Color3::new(1, 2, 3));
    assert_eq!(Color3::from_vec3_clamp(&Vec3::new(-1, 2 * ONE, 3)), Color3::new(0, ONE, 3));
}

#[test]
fn fixed_point_scalar_exact_values() {
    assert_eq!(fx::add(ONE, ONE), 2 * ONE);
    assert_eq!(fx::sub(ONE, 3 * ONE), -2 * ONE);
    assert_eq!(fx::mul(3 * ONE / 2, 2 * ONE), 3 * ONE);
    assert_eq!(fx::div(3 * ONE, 2 * ONE), 3 * ONE / 2);
    assert_eq!(fx::div(ONE, 0), 0);
    assert_eq!(fx::sqrt(4 * ONE), 2 * ONE);
    assert_eq!(fx::sqrt(ONE / 4), ONE / 2);
    assert_eq!(fx::sqrt(-ONE), 0);
    assert_eq!(fx::clamp(3 * ONE, 0, ONE), ONE);

    // Saturation instead of wrap-around at the ends of the range.
    assert_eq!(fx::add(i64::MAX, ONE), i64::MAX);
    assert_eq!(fx::sub(i64::MIN, ONE), i64::MIN);
}

#[test]
fn trigonometry_close_to_the_real_functions() {
    // 0.7071 * ONE = 46341
    let s = fx::sin(HALF_PI_FX / 2);
    assert!((s - 46341).abs() <= 30);
    assert_eq!(fx::sin(0), 0);
    assert!((fx::sin(HALF_PI_FX) - ONE).abs() <= 30);
    assert!(fx::sin(PI_FX).abs() <= 30);
    assert!((fx::cos(0) - ONE).abs() <= 30);
    assert!(fx::cos(HALF_PI_FX).abs() <= 30);
    assert!((fx::cos(PI_FX) + ONE).abs() <= 30);
    assert!(fx::sin(TWO_PI_FX).abs() <= 30);
    // tan(pi/4) = 1
    assert!((fx::tan(HALF_PI_FX / 2) - ONE).abs() <= 60);
}
