use std::sync::Arc;
use raytrace::fx::ONE;
use raytrace::material::Material;
use raytrace::primitive::{Primitive, Sphere};
use raytrace::ray::Ray;
use raytrace::vec3::Vec3;
use raytrace::world::World;

fn origin() -> Vec3 {
    Vec3::zero()
}

fn forward() -> Vec3 {
    Vec3::new(0, 0, ONE)
}

#[test]
fn sphere_at_origin_closest_intersection() {
    let ray = Ray::new(Vec3::new(0, 0, -2 * ONE), forward());
    let sphere = Sphere::new(origin(), ONE, &Arc::new(Material::default()));
    let hit = sphere.nearest_intersection(&ray).unwrap();

    assert_eq!(hit.distance, ONE);
    assert_eq!(hit.normal, Vec3::new(0, 0, -ONE));
}

#[test]
fn sphere_at_origin_miss() {
    let ray = Ray::new(Vec3::new(0, 0, -2 * ONE), Vec3::new(0, ONE, ONE).normalize());
    let sphere = Sphere::new(origin(), ONE, &Arc::new(Material::default()));
    let hit = sphere.nearest_intersection(&ray);
    assert!(hit.is_none());
}

#[test]
fn sphere_at_origign_cull_rear_intersections() {
    let ray = Ray::new(origin(), forward());
    let sphere = Sphere::new(origin(), ONE, &Arc::new(Material::default()));
    let hit = sphere.nearest_intersection(&ray).unwrap();

    assert_eq!(hit.distance, ONE);
    assert_eq!(hit.normal, forward());
}

#[test]
fn sphere_translated_closest_intersection() {
    let ray = Ray::new(origin(), forward());
    let sphere = Sphere::new(Vec3::new(0, 0, 11 * ONE), ONE, &Arc::new(Material::default()));
    let hit = sphere.nearest_intersection(&ray).unwrap();

    println!("{:?} {:?}", sphere, hit);
    assert_eq!(hit.distance, 10 * ONE);
    assert_eq!(hit.normal, Vec3::new(0, 0, -ONE));
}

#[test]
fn hit_shares_the_sphere_material() {
    let material = Arc::new(Material::default());
    let sphere = Sphere::new(origin(), ONE, &material);
    let ray = Ray::new(Vec3::new(0, 0, -2 * ONE), forward());
    let hit = sphere.nearest_intersection(&ray).unwrap();
    assert!(Arc::ptr_eq(&hit.material, &material));
}

#[test]
fn world_cast_returns_nearest() {
    let material = Arc::new(Material::default());
    let near = Primitive::Sphere(Sphere::new(Vec3::new(0, 0, 5 * ONE), ONE, &material));
    let far = Primitive::Sphere(Sphere::new(Vec3::new(0, 0, 9 * ONE), ONE, &material));
    let ray = Ray::new(origin(), forward());

    let world = World { primitives: vec![far.clone(), near.clone()] };
    let hit = world.cast(&ray).unwrap();
    assert_eq!(hit.distance, 4 * ONE);

    // The order of the primitives does not change the winner.
    let world2 = World { primitives: vec![near, far] };
    let hit2 = world2.cast(&ray).unwrap();
    assert_eq!(hit2.distance, 4 * ONE);
}

#[test]
fn world_cast_tie_breaks_by_order() {
    // Two coincident spheres with different materials: the hit distances
    // are equal, and the primitive listed first wins the tie.
    let first = Arc::new(Material::default());
    let second = Arc::new(Material::new(
        0,
        0,
        raytrace::color::Color3::gray(ONE),
        raytrace::color::Color3::gray(0),
        raytrace::color::Color3::gray(0),
        ONE,
    ));
    let a = Primitive::Sphere(Sphere::new(Vec3::new(0, 0, 5 * ONE), ONE, &first));
    let b = Primitive::Sphere(Sphere::new(Vec3::new(0, 0, 5 * ONE), ONE, &second));
    let ray = Ray::new(origin(), forward());
    let world = World { primitives: vec![a, b] };
    let hit = world.cast(&ray).unwrap();
    assert_eq!(hit.distance, 4 * ONE);
    assert!(Arc::ptr_eq(&hit.material, &first));
}

#[test]
fn world_cast_empty_is_none() {
    let world = World { primitives: vec![] };
    let ray = Ray::new(origin(), forward());
    assert!(world.cast(&ray).is_none());
}

#[test]
fn world_cast_all_behind_is_none() {
    let material = Arc::new(Material::default());
    let behind = Primitive::Sphere(Sphere::new(Vec3::new(0, 0, -5 * ONE), ONE, &material));
    let ray = Ray::new(origin(), forward());
    let world = World { primitives: vec![behind] };
    assert!(world.cast(&ray).is_none());
}

#[test]
fn ray_at_walks_the_direction() {
    let ray = Ray::new(Vec3::new(ONE, 0, 0), forward());
    assert_eq!(ray.at(2 * ONE), Vec3::new(ONE, 0, 2 * ONE));
    assert_eq!(ray.at(0), Vec3::new(ONE, 0, 0));
}

#[test]
fn vector_algebra_exact_values() {
    let a = Vec3::new(ONE, 2 * ONE, 3 * ONE);
    let b = Vec3::new(4 * ONE, 5 * ONE, 6 * ONE);
    assert_eq!(a.add(&b), Vec3::new(5 * ONE, 7 * ONE, 9 * ONE));
    assert_eq!(b.sub(&a), Vec3::new(3 * ONE, 3 * ONE, 3 * ONE));
    assert_eq!(a.dot(&b), 32 * ONE);
    assert_eq!(a.cross(&b), Vec3::new(-3 * ONE, 6 * ONE, -3 * ONE));
    assert_eq!(Vec3::new(3 * ONE, 0, 4 * ONE).length(), 5 * ONE);
    assert_eq!(Vec3::new(0, 0, -7 * ONE).normalize(), Vec3::new(0, 0, -ONE));
    assert_eq!(Vec3::zero().normalize(), Vec3::zero());
}
