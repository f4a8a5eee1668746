//! An offline ray-tracing renderer over a fixed-point scalar.
//!
//! Geometry, shading and the render loop are all expressed over a signed
//! 64-bit fixed-point number with 16 fractional bits (see `fx`), so every
//! arithmetic step has an exact integer meaning stated in its contract:
//! each executable function's result equals a `spec_*` mirror of the
//! computation, and the library's laws — nearest-hit selection, camera
//! cache consistency, render determinism, the shading range — are proved
//! over those mirrors.

pub mod camera;
pub mod color;
pub mod fx;
pub mod mat4;
pub mod material;
pub mod primitive;
pub mod quat;
pub mod ray;
pub mod screen;
pub mod vec3;
pub mod world;

pub use camera::Camera;
pub use color::Color3;
pub use material::Material;
pub use ray::{Hit, Ray};
pub use screen::Screen;
pub use world::World;
