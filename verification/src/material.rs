//! The physically-based material and its shading function: a Cook-Torrance
//! microfacet specular term (GGX distribution, Schlick-GGX geometry and
//! Schlick Fresnel) plus a Lambertian diffuse term.
//!
//! The fixed-point operations are total, so the numerical edge cases of the
//! model resolve deterministically: a vanishing denominator (grazing or
//! self-occluded angles, where `NoL*NoV` or the distribution denominator is
//! zero) makes the corresponding quotient zero rather than an infinity, and
//! the final clamp keeps every channel inside `[0, ONE]`.

use vstd::prelude::*;
use crate::fx;
use crate::fx::{spec_add, spec_sub, spec_mul, spec_div, spec_clamp, ONE, PI_FX};
use crate::color::{Color3, Color3s, spec_cadd, spec_csub, spec_cmul, spec_cscale, spec_cdiv_s, spec_cclamp, spec_cmix};
use crate::vec3::{Vec3, Vec3s, spec_add3, spec_neg3, spec_normalize, spec_dot};
use crate::ray::{Ray, Rays};

verus! {

/// A physically-based material.  `roughness` and `metallic` lie in
/// `[0, ONE]`; `fresnel_ior` is kept apart from `ior` so shading can be
/// tuned independently of any future refraction.
#[derive(Clone, Copy, Debug)]
pub struct Material {
    pub roughness: i64,
    pub metallic: i64,
    pub albedo: Color3,
    pub reflectance: Color3,
    pub transmittance: Color3,
    pub ior: i64,
    pub fresnel_ior: i64,
}

/// The mathematical model of a material.
pub struct Materials {
    pub roughness: int,
    pub metallic: int,
    pub albedo: Color3s,
    pub reflectance: Color3s,
    pub transmittance: Color3s,
    pub ior: int,
    pub fresnel_ior: int,
}

impl View for Material {
    type V = Materials;

    open spec fn view(&self) -> Materials {
        Materials {
            roughness: self.roughness as int,
            metallic: self.metallic as int,
            albedo: self.albedo@,
            reflectance: self.reflectance@,
            transmittance: self.transmittance@,
            ior: self.ior as int,
            fresnel_ior: self.fresnel_ior as int,
        }
    }
}

/// The chi step function of the GGX distribution: `ONE` for positive
/// arguments, zero otherwise.
pub open spec fn spec_chi_ggx(v: int) -> int {
    if v > 0 {
        ONE as int
    } else {
        0
    }
}

/// Fifth power in fixed point: `((t*t)*(t*t))*t`.
pub open spec fn spec_pow5(t: int) -> int {
    spec_mul(spec_mul(spec_mul(t, t), spec_mul(t, t)), t)
}

/// The full shading computation, step for step as `Material::shade`
/// performs it.
pub open spec fn spec_shade(m: Materials, ray: Rays, normal: Vec3s, dir_to_light: Vec3s) -> Color3s {
    let view_dir = spec_neg3(ray.direction);
    let half = spec_normalize(spec_add3(dir_to_light, view_dir));
    let alpha = spec_mul(m.roughness, m.roughness);
    let alpha_sq = spec_mul(alpha, alpha);
    let nol = spec_dot(normal, dir_to_light);
    let nov = spec_dot(normal, view_dir);
    let noh = spec_dot(normal, half);
    let noh_sq = spec_mul(noh, noh);
    let voh = spec_dot(view_dir, half);
    let d_denom = spec_add(spec_mul(noh_sq, alpha_sq), spec_sub(ONE as int, noh_sq));
    let d = spec_div(
        spec_mul(spec_chi_ggx(noh), alpha_sq),
        spec_mul(PI_FX as int, spec_mul(d_denom, d_denom)),
    );
    let k = spec_div(
        spec_mul(spec_add(m.roughness, ONE as int), spec_add(m.roughness, ONE as int)),
        8 * (ONE as int),
    );
    let g1_l = spec_div(nol, spec_add(spec_mul(nol, spec_sub(ONE as int, k)), k));
    let g1_v = spec_div(nov, spec_add(spec_mul(nov, spec_sub(ONE as int, k)), k));
    let g = spec_mul(g1_l, g1_v);
    let sqrt_f0 = spec_div(
        spec_sub(ONE as int, m.fresnel_ior),
        spec_add(ONE as int, m.fresnel_ior),
    );
    let sf = spec_mul(sqrt_f0, sqrt_f0);
    let f0 = spec_cmix(Color3s { r: sf, g: sf, b: sf }, m.albedo, m.metallic);
    let fres = spec_cadd(
        f0,
        spec_cscale(
            spec_csub(Color3s { r: ONE as int, g: ONE as int, b: ONE as int }, f0),
            spec_pow5(spec_sub(ONE as int, voh)),
        ),
    );
    let specular = spec_cdiv_s(
        spec_cscale(spec_cscale(fres, d), g),
        spec_mul(spec_mul(4 * (ONE as int), nol), nov),
    );
    let diffuse = spec_cdiv_s(
        spec_cscale(m.albedo, spec_sub(ONE as int, m.metallic)),
        PI_FX as int,
    );
    let nol_c = spec_clamp(nol, 0, ONE as int);
    spec_cclamp(spec_cscale(spec_cadd(diffuse, specular), nol_c))
}

/// The chi step function of the GGX distribution.
fn chi_ggx(v: i64) -> (r: i64)
    ensures
        r == spec_chi_ggx(v as int),
{
    if v > 0 {
        ONE
    } else {
        0
    }
}

/// Fifth power in fixed point.
fn pow5(t: i64) -> (r: i64)
    ensures
        r == spec_pow5(t as int),
{
    let t2: i64 = fx::mul(t, t);
    fx::mul(fx::mul(t2, t2), t)
}

impl Material {
    /// Builds a material; the Fresnel index of refraction starts equal to
    /// the refractive one.
    pub fn new(roughness: i64, metallic: i64, albedo: Color3, reflectance: Color3, transmittance: Color3, ior: i64) -> (m: Material)
        requires
            0 <= roughness <= ONE,
            0 <= metallic <= ONE,
        ensures
            m@.roughness == roughness as int,
            m@.metallic == metallic as int,
            m@.albedo == albedo@,
            m@.reflectance == reflectance@,
            m@.transmittance == transmittance@,
            m@.ior == ior as int,
            m@.fresnel_ior == ior as int,
    {
        Material {
            roughness,
            metallic,
            albedo,
            reflectance,
            transmittance,
            ior,
            fresnel_ior: ior,
        }
    }

    /// Outgoing radiance toward the ray's origin for one directional light.
    /// Every channel of the result lies in `[0, ONE]`.
    pub fn shade(&self, ray: &Ray, normal: &Vec3, dir_to_light: &Vec3) -> (c: Color3)
        ensures
            c@ == spec_shade(self@, ray@, normal@, dir_to_light@),
            0 <= c@.r <= ONE as int,
            0 <= c@.g <= ONE as int,
            0 <= c@.b <= ONE as int,
    {
        let view_dir = ray.direction.neg();
        let half = dir_to_light.add(&view_dir).normalize();
        let alpha: i64 = fx::mul(self.roughness, self.roughness);
        let alpha_sq: i64 = fx::mul(alpha, alpha);
        let nol: i64 = normal.dot(dir_to_light);
        let nov: i64 = normal.dot(&view_dir);
        let noh: i64 = normal.dot(&half);
        let noh_sq: i64 = fx::mul(noh, noh);
        let voh: i64 = view_dir.dot(&half);

        // D: normal distribution function
        let d_denom: i64 = fx::add(fx::mul(noh_sq, alpha_sq), fx::sub(ONE, noh_sq));
        let d: i64 = fx::div(
            fx::mul(chi_ggx(noh), alpha_sq),
            fx::mul(PI_FX, fx::mul(d_denom, d_denom)),
        );

        // G: geometry / self-shadowing
        let k: i64 = fx::div(
            fx::mul(fx::add(self.roughness, ONE), fx::add(self.roughness, ONE)),
            8 * ONE,
        );
        let g1_l: i64 = fx::div(nol, fx::add(fx::mul(nol, fx::sub(ONE, k)), k));
        let g1_v: i64 = fx::div(nov, fx::add(fx::mul(nov, fx::sub(ONE, k)), k));
        let g: i64 = fx::mul(g1_l, g1_v);

        // F: Schlick's Fresnel approximation against air
        let sqrt_f0: i64 = fx::div(fx::sub(ONE, self.fresnel_ior), fx::add(ONE, self.fresnel_ior));
        let f0 = Color3::gray(fx::mul(sqrt_f0, sqrt_f0)).mix(&self.albedo, self.metallic);
        let fres = f0.add(&Color3::gray(ONE).sub(&f0).scale(pow5(fx::sub(ONE, voh))));

        let specular = fres.scale(d).scale(g).div_scalar(fx::mul(fx::mul(4 * ONE, nol), nov));

        // Lambertian diffuse, weighted away for metals
        let diffuse = self.albedo.scale(fx::sub(ONE, self.metallic)).div_scalar(PI_FX);

        let nol_c: i64 = fx::clamp(nol, 0, ONE);
        diffuse.add(&specular).scale(nol_c).clamped()
    }
}

/// A fairly rough pink plastic.
impl Default for Material {
    fn default() -> (m: Material)
        ensures
            m@.roughness == 32768,
            m@.metallic == 0,
            m@.albedo == (Color3s { r: ONE as int, g: 0, b: ONE as int }),
            m@.reflectance == (Color3s { r: 0, g: 0, b: 0 }),
            m@.transmittance == (Color3s { r: 0, g: 0, b: 0 }),
            m@.ior == 5 * ONE as int,
            m@.fresnel_ior == 5 * ONE as int,
    {
        Material::new(
            32768,
            0,
            Color3::new(ONE, 0, ONE),
            Color3::gray(0),
            Color3::gray(0),
            5 * ONE,
        )
    }
}

} // verus!
