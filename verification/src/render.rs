//! Per-pixel ray generation and the frame loop: each pixel's camera-space
//! direction is derived from its coordinates under a vertical field of
//! view of pi/3, rewritten into world space, traced, and packed into a
//! 0x00RRGGBB word. Pixels are independent, so the image is a pure
//! function of scene, camera, light and viewport, and a caller may
//! compute pixels in any order or in parallel.

use vstd::prelude::*;
use crate::camera::{basis_change_s, Camera};
use crate::color::packed_s;
use crate::cube::Cube;
use crate::fx::{fx_div, fx_div_s, fx_mul, fx_mul_s, fx_of_int_s, fx_of_usize, fx_sub, fx_sub_s};
use crate::light::Light;
use crate::shader::{cast_ray, scene_wf, shade_s};
use crate::vec3::{normalize_s, Vec3};

verus! {

/// Tangent of half the vertical field of view (pi/6), in 16.16 fixed
/// point.
pub const TAN_HALF_FOV: i64 = 37837;

/// The packed color of the pixel at `(x, y)` in a `w` by `h` viewport:
/// the pixel's integer coordinates map straight to the image plane (no
/// half-pixel offset), scaled by aspect ratio and the field-of-view
/// tangent, and the ray is traced from the eye at recursion depth 0.
pub open spec fn render_pixel_s(
    scene: Seq<Cube>,
    cam: Camera,
    light: Light,
    w: int,
    h: int,
    x: int,
    y: int,
) -> u32
    recommends
        w >= 1,
        h >= 1,
{
    let wf = fx_of_int_s(w);
    let hf = fx_of_int_s(h);
    let aspect = fx_div_s(wf, hf);
    let sx0 = fx_sub_s(fx_div_s(fx_mul_s(131072, fx_of_int_s(x)), wf), 65536);
    let sy0 = fx_sub_s(65536, fx_div_s(fx_mul_s(131072, fx_of_int_s(y)), hf));
    let sx = fx_mul_s(fx_mul_s(sx0, aspect), TAN_HALF_FOV as int);
    let sy = fx_mul_s(sy0, TAN_HALF_FOV as int);
    let dir = normalize_s(Vec3 { x: sx as i64, y: sy as i64, z: -65536i64 });
    let world = basis_change_s(cam, dir);
    packed_s(shade_s(scene, light, cam.eye, world, 0))
}

/// The whole frame, row-major from the top-left pixel.
pub open spec fn render_image_s(
    scene: Seq<Cube>,
    cam: Camera,
    light: Light,
    w: int,
    h: int,
) -> Seq<u32>
    recommends
        w >= 1,
        h >= 1,
{
    Seq::new((w * h) as nat, |i: int| render_pixel_s(scene, cam, light, w, h, i % w, i / w))
}

/// The packed color of one pixel.
pub fn render_pixel(
    x: usize,
    y: usize,
    width: usize,
    height: usize,
    objects: &Vec<Cube>,
    camera: &Camera,
    light: &Light,
) -> (p: u32)
    requires
        scene_wf(objects@),
        width >= 1,
        height >= 1,
    ensures
        p == render_pixel_s(objects@, *camera, *light, width as int, height as int, x as int, y as int),
{
    let wf: i64 = fx_of_usize(width);
    let hf: i64 = fx_of_usize(height);
    let aspect: i64 = fx_div(wf, hf);
    let sx0: i64 = fx_sub(fx_div(fx_mul(131072, fx_of_usize(x)), wf), 65536);
    let sy0: i64 = fx_sub(65536, fx_div(fx_mul(131072, fx_of_usize(y)), hf));
    let sx: i64 = fx_mul(fx_mul(sx0, aspect), TAN_HALF_FOV);
    let sy: i64 = fx_mul(sy0, TAN_HALF_FOV);
    let dir: Vec3 = Vec3 { x: sx, y: sy, z: -65536 }.normalize();
    let world: Vec3 = camera.basis_change(&dir);
    cast_ray(&camera.eye, &world, objects, light, 0).to_packed_u32()
}

/// The whole frame as a row-major buffer of packed pixels.
#[verifier::loop_isolation(false)]
pub fn render(
    width: usize,
    height: usize,
    objects: &Vec<Cube>,
    camera: &Camera,
    light: &Light,
) -> (frame: Vec<u32>)
    requires
        scene_wf(objects@),
        width >= 1,
        height >= 1,
        width * height <= usize::MAX,
    ensures
        frame@ == render_image_s(objects@, *camera, *light, width as int, height as int),
{
    let total: usize = width * height;
    let mut buf: Vec<u32> = Vec::new();
    let mut i: usize = 0;
    while i < total
        invariant
            0 <= i <= total,
            buf@.len() == i,
            forall|k: int|
                0 <= k < i ==> buf@[k] == render_pixel_s(
                    objects@,
                    *camera,
                    *light,
                    width as int,
                    height as int,
                    k % (width as int),
                    k / (width as int),
                ),
        decreases total - i,
    {
        let x: usize = i % width;
        let y: usize = i / width;
        proof {
            vstd::arithmetic::div_mod::lemma_mod_bound(i as int, width as int);
        }
        let p: u32 = render_pixel(x, y, width, height, objects, camera, light);
        buf.push(p);
        i = i + 1;
    }
    proof {
        assert(buf@ =~= render_image_s(
            objects@,
            *camera,
            *light,
            width as int,
            height as int,
        ));
    }
    buf
}

/// Rendering is deterministic: two frames of the same scene, camera,
/// light and viewport are identical.
pub proof fn lemma_render_deterministic(
    scene: Seq<Cube>,
    cam: Camera,
    light: Light,
    w: int,
    h: int,
    a: Seq<u32>,
    b: Seq<u32>,
)
    requires
        a == render_image_s(scene, cam, light, w, h),
        b == render_image_s(scene, cam, light, w, h),
    ensures
        a == b,
{
}

/// With an empty scene every pixel of the frame is the packed skybox
/// color (68, 142, 228).
pub proof fn lemma_empty_scene_sky(scene: Seq<Cube>, cam: Camera, light: Light, w: int, h: int)
    requires
        scene.len() == 0,
        w >= 1,
        h >= 1,
    ensures
        render_image_s(scene, cam, light, w, h).len() == w * h,
        forall|i: int|
            0 <= i < w * h ==> render_image_s(scene, cam, light, w, h)[i] == 0x448EE4u32,
{
    assert(w * h >= 0) by (nonlinear_arith)
        requires
            w >= 1 && h >= 1,
    ;
    assert forall|i: int| 0 <= i < w * h implies render_image_s(scene, cam, light, w, h)[i]
        == 0x448EE4u32 by {
        let px = render_pixel_s(scene, cam, light, w, h, i % w, i / w);
        assert(px == 0x448EE4u32);
    }
}

} // verus!
