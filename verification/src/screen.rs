//! The render loop: for every pixel, derive a primary ray from the camera,
//! cast it against the world, shade the nearest hit against one directional
//! light (or write black), and emit the buffer row-major, top row first.
//!
//! Every pixel is a pure function of its own index plus the read-only
//! camera and world, so a sequential driver and a data-parallel driver are
//! interchangeable: both are specified by — and proved equal to — the same
//! `spec_render` sequence, which is the render-determinism property.

use vstd::prelude::*;
use rayon::iter::{IntoParallelIterator, ParallelIterator};
use crate::fx;
use crate::fx::{spec_add, spec_sub, spec_mul, spec_div, spec_neg, ONE};
use crate::vec3::{Vec3, Vec3s, spec_normalize};
use crate::color::{Color3, Color3s, Rgb8, spec_to_rgb8};
use crate::camera::{Camera, CameraV, spec_primary_ray};
use crate::material::spec_shade;
use crate::primitive::PrimitiveS;
use crate::world::{World, spec_cast};
use crate::ray::{Ray, Rays};

verus! {

/// A screen configuration fit for rendering: positive dimensions, small
/// enough that every pixel coordinate and the buffer length stay
/// representable.
pub open spec fn spec_screen_wf(w: int, h: int) -> bool {
    1 <= w <= 32768 && 1 <= h <= 32768
}

/// The primary ray of pixel `i` in a `w` by `h` image: scanline order, left
/// to right then top to bottom, each ray through its pixel's center.  With
/// pixel sizes `dx = 2/w` and `dy = 2/h` in screen units, pixel `(px, py)`
/// maps to `x = -1 + dx/2 + px*dx` and `y = 1 - dy/2 - py*dy`, so image row
/// zero is the top of the screen.
pub open spec fn spec_pixel_ray(c: CameraV, w: int, h: int, i: int) -> Rays {
    let wf = w * (ONE as int);
    let hf = h * (ONE as int);
    let dx = spec_div(2 * (ONE as int), wf);
    let dy = spec_div(2 * (ONE as int), hf);
    let ox = spec_add(spec_neg(ONE as int), spec_div(dx, 2 * (ONE as int)));
    let oy = spec_sub(ONE as int, spec_div(dy, 2 * (ONE as int)));
    let px = i % w;
    let py = i / w;
    let x = spec_add(ox, spec_mul(dx, px * (ONE as int)));
    let y = spec_sub(oy, spec_mul(dy, py * (ONE as int)));
    spec_primary_ray(c, x, y)
}

/// The mock directional light the render loop shades against.
pub open spec fn spec_light_dir() -> Vec3s {
    spec_normalize(Vec3s { x: ONE as int, y: ONE as int, z: ONE as int })
}

/// The color of pixel `i`: the nearest hit shaded against the light, or
/// black where the ray escapes the scene.
pub open spec fn spec_render_pixel(c: CameraV, ps: Seq<PrimitiveS>, w: int, h: int, i: int) -> Color3s {
    let ray = spec_pixel_ray(c, w, h, i);
    match spec_cast(ps, ray) {
        Option::Some(hit) => spec_shade(hit.material, ray, hit.normal, spec_light_dir()),
        Option::None => Color3s { r: 0, g: 0, b: 0 },
    }
}

/// The byte form of pixel `i`.
pub open spec fn spec_render_pixel_rgb8(c: CameraV, ps: Seq<PrimitiveS>, w: int, h: int, i: int) -> Rgb8 {
    spec_to_rgb8(spec_render_pixel(c, ps, w, h, i))
}

/// The whole rendered buffer: `w*h` pixels, row-major, top row first.
/// Both render drivers — sequential and parallel — are proved to return
/// exactly this sequence.
pub open spec fn spec_render(c: CameraV, ps: Seq<PrimitiveS>, w: int, h: int) -> Seq<Rgb8> {
    Seq::new((w * h) as nat, |i: int| spec_render_pixel_rgb8(c, ps, w, h, i))
}

/// The primary ray of pixel `i`.
#[verifier::rlimit(60)]
pub fn pixel_ray(camera: &Camera, width: usize, height: usize, i: usize) -> (r: Ray)
    requires
        spec_screen_wf(width as int, height as int),
        i < width * height,
    ensures
        r@ == spec_pixel_ray(camera@, width as int, height as int, i as int),
{
    let wf: i64 = (width as i64) * ONE;
    let hf: i64 = (height as i64) * ONE;
    let dx: i64 = fx::div(2 * ONE, wf);
    let dy: i64 = fx::div(2 * ONE, hf);
    let ox: i64 = fx::add(fx::neg(ONE), fx::div(dx, 2 * ONE));
    let oy: i64 = fx::sub(ONE, fx::div(dy, 2 * ONE));
    let px: usize = i % width;
    let py: usize = i / width;
    proof {
        let iw = i as int;
        let w = width as int;
        let q = iw / w;
        let r = iw % w;
        vstd::arithmetic::div_mod::lemma_fundamental_div_mod(iw, w);
        vstd::arithmetic::div_mod::lemma_mod_bound(iw, w);
        vstd::arithmetic::div_mod::lemma_div_pos_is_pos(iw, w);
        assert(q < height as int) by (nonlinear_arith)
            requires
                w * q + r == iw,
                0 <= r,
                0 <= q,
                iw < w * (height as int),
                w >= 1,
        {}
    }
    let x: i64 = fx::add(ox, fx::mul(dx, (px as i64) * ONE));
    let y: i64 = fx::sub(oy, fx::mul(dy, (py as i64) * ONE));
    camera.primary_ray(x, y)
}

/// Computes the color of one pixel: a pure function of the pixel index and
/// the read-only camera and world, with every channel in `[0, ONE]`.
pub fn render_pixel(camera: &Camera, world: &World, width: usize, height: usize, i: usize) -> (c: Color3)
    requires
        spec_screen_wf(width as int, height as int),
        i < width * height,
    ensures
        c@ == spec_render_pixel(camera@, world@, width as int, height as int, i as int),
{
    let ray = pixel_ray(camera, width, height, i);
    match world.cast(&ray) {
        Some(hit) => {
            let light = Vec3::new(ONE, ONE, ONE).normalize();
            hit.material.shade(&ray, &hit.normal, &light)
        },
        None => Color3::new(0, 0, 0),
    }
}

/// Relies on rayon's indexed parallel iterator: `into_par_iter` over a
/// range with `map` and `collect` evaluates the (pure, verified) per-pixel
/// function at every index and collects the results in index order, so the
/// buffer equals the sequential one element for element.
#[verifier::external_body]
fn par_render_pixels(camera: &Camera, world: &World, width: usize, height: usize) -> (r: Vec<Color3>)
    requires
        spec_screen_wf(width as int, height as int),
    ensures
        r@.len() == width * height,
        forall|i: int|
            0 <= i < r@.len() ==> (#[trigger] r@[i])@ == spec_render_pixel(
                camera@,
                world@,
                width as int,
                height as int,
                i,
            ),
{
    (0..width * height).into_par_iter().map(
        |i| render_pixel(camera, world, width, height, i),
    ).collect()
}

/// The screen configuration: the output image's dimensions in pixels.
#[derive(Clone, Copy, Debug)]
pub struct Screen {
    pub width: usize,
    pub height: usize,
}

impl Screen {
    /// Builds a screen configuration; both dimensions are positive, and
    /// bounded so pixel coordinates stay representable.
    pub fn new(w: usize, h: usize) -> (s: Screen)
        requires
            spec_screen_wf(w as int, h as int),
        ensures
            s.width == w,
            s.height == h,
    {
        Screen { width: w, height: h }
    }

    /// Renders sequentially: one pixel after the other, in buffer order.
    pub fn render(&self, camera: &Camera, world: &World) -> (res: Vec<Rgb8>)
        requires
            spec_screen_wf(self.width as int, self.height as int),
        ensures
            res@ == spec_render(camera@, world@, self.width as int, self.height as int),
            res@.len() == self.width * self.height,
    {
        proof {
            assert((self.width as int) * (self.height as int) <= 0x40000000)
                by (nonlinear_arith)
                requires 1 <= self.width <= 32768 && 1 <= self.height <= 32768,
            {}
        }
        let n: usize = self.width * self.height;
        let mut buf: Vec<Rgb8> = Vec::new();
        let mut i: usize = 0;
        while i < n
            invariant
                0 <= i <= n,
                n == self.width * self.height,
                spec_screen_wf(self.width as int, self.height as int),
                buf@.len() == i as int,
                forall|j: int|
                    0 <= j < i ==> buf@[j] == spec_render_pixel_rgb8(
                        camera@,
                        world@,
                        self.width as int,
                        self.height as int,
                        j,
                    ),
            decreases n - i,
        {
            let c = render_pixel(camera, world, self.width, self.height, i);
            buf.push(c.to_rgb8());
            i = i + 1;
        }
        proof {
            assert(buf@ =~= spec_render(camera@, world@, self.width as int, self.height as int));
        }
        buf
    }

    /// Renders with parallel dispatch: the pixel range is partitioned over
    /// worker threads, each computing the same pure per-pixel function.
    /// The contract is identical to the sequential `render`'s: both return
    /// `spec_render` of the same scene, bit for bit.
    pub fn render_parallel(&self, camera: &Camera, world: &World) -> (res: Vec<Rgb8>)
        requires
            spec_screen_wf(self.width as int, self.height as int),
        ensures
            res@ == spec_render(camera@, world@, self.width as int, self.height as int),
            res@.len() == self.width * self.height,
    {
        let colors = par_render_pixels(camera, world, self.width, self.height);
        let n: usize = colors.len();
        let mut buf: Vec<Rgb8> = Vec::new();
        let mut i: usize = 0;
        while i < n
            invariant
                0 <= i <= n,
                n == colors@.len(),
                colors@.len() == self.width * self.height,
                spec_screen_wf(self.width as int, self.height as int),
                forall|k: int|
                    0 <= k < colors@.len() ==> (#[trigger] colors@[k])@ == spec_render_pixel(
                        camera@,
                        world@,
                        self.width as int,
                        self.height as int,
                        k,
                    ),
                buf@.len() == i as int,
                forall|j: int|
                    0 <= j < i ==> buf@[j] == spec_render_pixel_rgb8(
                        camera@,
                        world@,
                        self.width as int,
                        self.height as int,
                        j,
                    ),
            decreases n - i,
        {
            let c = colors[i];
            buf.push(c.to_rgb8());
            i = i + 1;
        }
        proof {
            assert(buf@ =~= spec_render(camera@, world@, self.width as int, self.height as int));
        }
        buf
    }
}

/// Render determinism: the sequential and the parallel drivers both meet
/// the same contract — their result is `spec_render` of the scene — so two
/// buffers rendered from the same camera, world and screen configuration
/// are identical however they were dispatched.
pub proof fn lemma_render_deterministic(a: Seq<Rgb8>, b: Seq<Rgb8>, c: CameraV, ps: Seq<PrimitiveS>, w: int, h: int)
    requires
        a == spec_render(c, ps, w, h),
        b == spec_render(c, ps, w, h),
    ensures
        a == b,
{
}

} // verus!
