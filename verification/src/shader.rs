//! The recursive whitted shader: nearest-hit scan, face-aware surface
//! color, diffuse and specular terms under a single point light, shadow
//! attenuation with early exit, and reflection/refraction bounded by a
//! hard recursion depth.

use vstd::prelude::*;
use crate::color::{color_add_s, color_scale_s, Color};
use crate::cube::{
    cube_wf, hit_b, hit_face, hit_point, intersect_s, lemma_offside_ray_misses,
    lemma_top_hit_point_on_surface, Cube,
};
use crate::fx::{
    fx_clamp, fx_div, fx_div_s, fx_max, fx_mul, fx_mul_s, fx_pow, fx_pow_s, fx_sqrt_s, fx_sub,
    fx_sub_s, iclamp, imax, imin,
};
use crate::light::Light;
use crate::material::{mat_wf, Material};
use crate::ray_intersect::{face_normal, CubeFace, Intersect, RayIntersect};
use crate::texture::sample_s;
use crate::vec3::{dot_s, normalize_s, vadd_s, vneg_s, vscale_s, vsub_s, Vec3};

verus! {

/// Rays deeper than this many bounces beyond the primary ray shade as sky.
pub const MAX_DEPTH: u32 = 3;

/// Secondary rays start this far (16.16 fixed point, about 1e-4) off the
/// surface, along the oriented normal, to avoid re-hitting it.
pub const ORIGIN_BIAS: i64 = 7;

/// The color returned where no box is hit.
pub open spec fn skybox_s() -> Color {
    Color { r: 68, g: 142, b: 228 }
}

/// The color returned where no box is hit.
pub fn skybox_color() -> (c: Color)
    ensures
        c == skybox_s(),
{
    Color { r: 68, g: 142, b: 228 }
}

/// A scene the shader can walk: every box is well-formed, and a
/// transparent material carries a refractive index of at least 1.
pub open spec fn scene_wf(scene: Seq<Cube>) -> bool {
    forall|i: int|
        0 <= i < scene.len() ==> {
            &&& cube_wf(#[trigger] scene[i])
            &&& (scene[i].material.properties[3] > 0 ==> scene[i].material.refractive_index
                >= 65536)
        }
}

/// The hit point displaced by the origin bias along the normal, on
/// whichever side of the surface `direction` points to.
pub open spec fn offset_origin_s(hit: Intersect, direction: Vec3) -> Vec3 {
    let off = vscale_s(hit.normal, ORIGIN_BIAS as int);
    if dot_s(direction, hit.normal) < 0 {
        vsub_s(hit.point, off)
    } else {
        vadd_s(hit.point, off)
    }
}

/// The incident vector mirrored about the normal:
/// `I - 2 (I . N) N` in saturating fixed point.
pub open spec fn reflect_s(incident: Vec3, normal: Vec3) -> Vec3 {
    vsub_s(incident, vscale_s(normal, fx_mul_s(131072, dot_s(incident, normal))))
}

/// The refracted direction for relative index `eta_t`, by Snell's law on
/// the oriented normal; a negative discriminant (total internal
/// reflection) yields the reflected direction instead.
pub open spec fn refract_s(incident: Vec3, normal: Vec3, eta_t: int) -> Vec3
    recommends
        eta_t >= 65536,
{
    let cosi = iclamp(fx_sub_s(0, dot_s(incident, normal)), -65536, 65536);
    let n_cosi = if cosi < 0 { fx_sub_s(0, cosi) } else { cosi };
    let eta = if cosi < 0 { eta_t } else { fx_div_s(65536, eta_t) };
    let n_normal = if cosi < 0 { vneg_s(normal) } else { normal };
    let k = fx_sub_s(65536, fx_mul_s(fx_mul_s(eta, eta), fx_sub_s(65536, fx_mul_s(n_cosi, n_cosi))));
    if k < 0 {
        reflect_s(incident, n_normal)
    } else {
        vadd_s(vscale_s(incident, eta), vscale_s(n_normal, fx_sub_s(fx_mul_s(eta, n_cosi), fx_sqrt_s(k))))
    }
}

/// Shadow term contributed by the scene from index `k` on: the first box
/// in scene order whose hit lies nearer than the light determines
/// `1 - min(ratio^2, 1)`, later boxes are not consulted; no occluder
/// means no shadow.
pub open spec fn shadow_scan_s(
    scene: Seq<Cube>,
    k: int,
    origin: Vec3,
    dir: Vec3,
    light_distance: int,
) -> int
    decreases scene.len() - k,
{
    if k < 0 || k >= scene.len() {
        0
    } else {
        let si = intersect_s(scene[k], origin, dir);
        if si.is_intersecting && si.distance < light_distance {
            let ratio = fx_div_s(si.distance as int, light_distance);
            fx_sub_s(65536, imin(fx_mul_s(ratio, ratio), 65536))
        } else {
            shadow_scan_s(scene, k + 1, origin, dir, light_distance)
        }
    }
}

/// Shadow intensity at a hit: shoot a ray from the bias-offset hit point
/// toward the light and scan the scene in order.
pub open spec fn cast_shadow_s(hit: Intersect, light: Light, scene: Seq<Cube>) -> int {
    let to_light = vsub_s(light.position, hit.point);
    let light_dir = normalize_s(to_light);
    let light_distance = fx_sqrt_s(dot_s(to_light, to_light));
    let origin = offset_origin_s(hit, light_dir);
    shadow_scan_s(scene, 0, origin, light_dir, light_distance)
}

/// The nearest hit among the first `k` boxes, with the index of its box:
/// a strictly nearer hit replaces the best so far, so the earliest box
/// wins ties.
pub open spec fn scan_hit_s(scene: Seq<Cube>, k: int, o: Vec3, d: Vec3) -> Option<(int, Intersect)>
    decreases k,
{
    if k <= 0 || k > scene.len() {
        None
    } else {
        let prev = scan_hit_s(scene, k - 1, o, d);
        let cur = intersect_s(scene[k - 1], o, d);
        if cur.is_intersecting {
            match prev {
                Option::None => Some((k - 1, cur)),
                Option::Some((j, r)) => if cur.distance < r.distance {
                    Some((k - 1, cur))
                } else {
                    Some((j, r))
                },
            }
        } else {
            prev
        }
    }
}

/// What it means for `result` to be the nearest hit among the first `k`
/// boxes: a miss only when every box misses, otherwise the record and
/// index of an intersected box no other intersected box beats on
/// distance.
pub open spec fn nearest_hit_ok(
    scene: Seq<Cube>,
    k: int,
    o: Vec3,
    d: Vec3,
    result: Option<(int, Intersect)>,
) -> bool {
    match result {
        Option::None => forall|i: int|
            0 <= i < k ==> !(#[trigger] intersect_s(scene[i], o, d)).is_intersecting,
        Option::Some((j, r)) => {
            &&& 0 <= j < k
            &&& r == intersect_s(scene[j], o, d)
            &&& r.is_intersecting
            &&& forall|i: int|
                0 <= i < k && (#[trigger] intersect_s(scene[i], o, d)).is_intersecting
                    ==> r.distance <= intersect_s(scene[i], o, d).distance
        },
    }
}

/// The scan over the first `k` boxes indeed returns the nearest hit, or
/// a miss when every box misses: what the shader shades is the box whose
/// entry distance is smallest among all hits.
#[verifier::spinoff_prover]
#[verifier::rlimit(100)]
pub proof fn lemma_scan_hit_nearest(scene: Seq<Cube>, k: int, o: Vec3, d: Vec3)
    requires
        0 <= k <= scene.len(),
    ensures
        nearest_hit_ok(scene, k, o, d, scan_hit_s(scene, k, o, d)),
    decreases k,
{
    if k > 0 {
        lemma_scan_hit_nearest(scene, k - 1, o, d);
        let prev = scan_hit_s(scene, k - 1, o, d);
        let cur = intersect_s(scene[k - 1], o, d);
        if cur.is_intersecting {
            match prev {
                Option::None => {
                    assert(scan_hit_s(scene, k, o, d) == Some((k - 1, cur)));
                },
                Option::Some((j, r)) => {
                    if cur.distance < r.distance {
                        assert(scan_hit_s(scene, k, o, d) == Some((k - 1, cur)));
                    } else {
                        assert(scan_hit_s(scene, k, o, d) == Some((j, r)));
                    }
                },
            }
        } else {
            assert(scan_hit_s(scene, k, o, d) == prev);
        }
    }
}

/// Past the depth bound the shader does not recurse: it returns the
/// skybox color outright.
pub proof fn lemma_depth_cutoff(scene: Seq<Cube>, light: Light, o: Vec3, d: Vec3, depth: int)
    requires
        depth > MAX_DEPTH,
    ensures
        shade_s(scene, light, o, d, depth) == skybox_s(),
{
}

/// The surface color at a hit: the face-selected texture sample, or the
/// base color for an untextured material. Entry 0 of the bank serves the
/// top face and entry 1 every other face; a bank of one serves all faces.
pub open spec fn surface_color_s(m: Material, face: CubeFace, u: int, v: int) -> Color {
    if m.textures@.len() == 0 {
        m.color
    } else {
        let idx: int = if face == CubeFace::Top {
            0
        } else if m.textures@.len() >= 2 {
            1
        } else {
            0
        };
        sample_s(m.textures@[idx], u, v)
    }
}

/// The color a ray gathers. Past `MAX_DEPTH` bounces, or missing every
/// box, it is the skybox color; otherwise the nearest hit is shaded with
/// the diffuse and specular terms under the shadow-attenuated light and,
/// for positive coefficients, the reflected and refracted rays one bounce
/// deeper.
pub open spec fn shade_s(scene: Seq<Cube>, light: Light, o: Vec3, d: Vec3, depth: int) -> Color
    decreases 4 - depth,
{
    if depth > MAX_DEPTH {
        skybox_s()
    } else {
        match scan_hit_s(scene, scene.len() as int, o, d) {
            Option::None => skybox_s(),
            Option::Some((j, hit)) => {
                let m = scene[j].material;
                let surface = surface_color_s(m, hit.face, hit.u as int, hit.v as int);
                let light_dir = normalize_s(vsub_s(light.position, hit.point));
                let view_dir = normalize_s(vsub_s(o, hit.point));
                let reflect_dir = normalize_s(reflect_s(vneg_s(light_dir), hit.normal));
                let shadow_intensity = cast_shadow_s(hit, light, scene);
                let light_intensity = fx_mul_s(
                    light.intensity as int,
                    fx_sub_s(65536, shadow_intensity),
                );
                let diffuse_intensity = imax(dot_s(hit.normal, light_dir), 0);
                let diffuse = color_scale_s(
                    color_scale_s(color_scale_s(surface, m.properties[0] as int), diffuse_intensity),
                    light_intensity,
                );
                let specular_intensity = fx_pow_s(
                    imax(dot_s(view_dir, reflect_dir), 0),
                    m.shininess as nat,
                );
                let specular = color_scale_s(
                    color_scale_s(
                        color_scale_s(light.color, m.properties[1] as int),
                        specular_intensity,
                    ),
                    light_intensity,
                );
                let reflectivity = m.properties[2] as int;
                let transparency = m.properties[3] as int;
                let reflect_color = if reflectivity > 0 {
                    let rdir = normalize_s(reflect_s(d, hit.normal));
                    shade_s(scene, light, offset_origin_s(hit, rdir), rdir, depth + 1)
                } else {
                    Color { r: 0, g: 0, b: 0 }
                };
                let refract_color = if transparency > 0 {
                    let tdir = refract_s(d, hit.normal, m.refractive_index as int);
                    shade_s(scene, light, offset_origin_s(hit, tdir), tdir, depth + 1)
                } else {
                    Color { r: 0, g: 0, b: 0 }
                };
                let own = fx_sub_s(fx_sub_s(65536, reflectivity), transparency);
                color_add_s(
                    color_add_s(
                        color_scale_s(color_add_s(diffuse, specular), own),
                        color_scale_s(reflect_color, reflectivity),
                    ),
                    color_scale_s(refract_color, transparency),
                )
            },
        }
    }
}

/// A hit whose normal points up, followed by a secondary direction that
/// does not point back into the surface, has its biased origin exactly
/// one bias above the hit point.
pub proof fn lemma_offset_leaves_top(hit: Intersect, dir: Vec3)
    requires
        hit.normal == face_normal(CubeFace::Top),
        dot_s(dir, hit.normal) >= 0,
        hit.point.y <= 0x7ffffffffffffff0,
    ensures
        offset_origin_s(hit, dir).y == hit.point.y + 7,
        offset_origin_s(hit, dir).x == hit.point.x,
        offset_origin_s(hit, dir).z == hit.point.z,
{
}

/// Self-intersection freedom for the top face: a downward outside ray
/// that hits the top face spawns, through the origin bias, secondary
/// rays that cannot re-hit this box as long as they do not point back
/// down (and stay at most unit-sized on the vertical axis).
pub proof fn lemma_secondary_ray_misses(c: Cube, o: Vec3, d: Vec3, rdir: Vec3)
    requires
        cube_wf(c),
        hit_b(c, o, d),
        hit_face(c, o, d) == CubeFace::Top,
        -65536 <= d.y <= -1,
        o.y > c.max.y,
        o.y - c.max.y <= 0x400000000000,
        o.y <= 0x7ffffffffffffff0,
        dot_s(rdir, face_normal(CubeFace::Top)) >= 0,
        0 <= rdir.y <= 65536,
    ensures
        !intersect_s(c, offset_origin_s(intersect_s(c, o, d), rdir), rdir).is_intersecting,
{
    lemma_top_hit_point_on_surface(c, o, d);
    let hit = intersect_s(c, o, d);
    assert(hit.point == hit_point(c, o, d));
    assert(hit.normal == face_normal(CubeFace::Top));
    lemma_offset_leaves_top(hit, rdir);
    let origin2 = offset_origin_s(hit, rdir);
    assert(origin2.y > c.max.y);
    lemma_offside_ray_misses(c, origin2, rdir);
}

/// The hit point displaced off the surface toward `direction`.
pub fn offset_origin(hit: &Intersect, direction: &Vec3) -> (r: Vec3)
    ensures
        r == offset_origin_s(*hit, *direction),
{
    let off: Vec3 = hit.normal.scale_v(ORIGIN_BIAS);
    if direction.dot(hit.normal) < 0 {
        hit.point.sub_v(off)
    } else {
        hit.point.add_v(off)
    }
}

/// The incident vector mirrored about the normal.
pub fn reflect(incident: &Vec3, normal: &Vec3) -> (r: Vec3)
    ensures
        r == reflect_s(*incident, *normal),
{
    incident.sub_v(normal.scale_v(fx_mul(131072, incident.dot(*normal))))
}

/// The refracted direction, or the reflected one on total internal
/// reflection.
pub fn refract(incident: &Vec3, normal: &Vec3, eta_t: i64) -> (r: Vec3)
    requires
        eta_t >= 65536,
    ensures
        r == refract_s(*incident, *normal, eta_t as int),
{
    let cosi: i64 = fx_clamp(fx_sub(0, incident.dot(*normal)), -65536, 65536);
    let n_cosi: i64 = if cosi < 0 { fx_sub(0, cosi) } else { cosi };
    let eta: i64 = if cosi < 0 { eta_t } else { fx_div(65536, eta_t) };
    let n_normal: Vec3 = if cosi < 0 { normal.neg_v() } else { *normal };
    let k: i64 = fx_sub(65536, fx_mul(fx_mul(eta, eta), fx_sub(65536, fx_mul(n_cosi, n_cosi))));
    if k < 0 {
        reflect(incident, &n_normal)
    } else {
        incident.scale_v(eta).add_v(n_normal.scale_v(fx_sub(fx_mul(eta, n_cosi), crate::fx::fx_sqrt(k))))
    }
}

/// The surface color at a hit.
pub fn surface_color(m: &Material, face: CubeFace, u: i64, v: i64) -> (c: Color)
    requires
        mat_wf(*m),
    ensures
        c == surface_color_s(*m, face, u as int, v as int),
{
    if m.textures.len() == 0 {
        m.color
    } else {
        let idx: usize = if face == CubeFace::Top {
            0
        } else if m.textures.len() >= 2 {
            1
        } else {
            0
        };
        m.textures[idx].get_color(u, v)
    }
}

/// Shadow intensity at a hit: the first box in scene order that occludes
/// the light attenuates it by one minus the squared distance ratio,
/// clamped to 1.
#[verifier::loop_isolation(false)]
pub fn cast_shadow(hit: &Intersect, light: &Light, objects: &Vec<Cube>) -> (r: i64)
    requires
        scene_wf(objects@),
    ensures
        r == cast_shadow_s(*hit, *light, objects@),
{
    let to_light: Vec3 = light.position.sub_v(hit.point);
    let light_dir: Vec3 = to_light.normalize();
    let light_distance: i64 = to_light.magnitude();
    let shadow_origin: Vec3 = offset_origin(hit, &light_dir);
    let mut k: usize = 0;
    while k < objects.len()
        invariant
            0 <= k <= objects@.len(),
            shadow_scan_s(objects@, 0, shadow_origin, light_dir, light_distance as int)
                == shadow_scan_s(objects@, k as int, shadow_origin, light_dir, light_distance as int),
        decreases objects@.len() - k,
    {
        let si: Intersect = objects[k].ray_intersect(&shadow_origin, &light_dir);
        proof {
            crate::cube::Cube::lemma_intersect_props(objects@[k as int], shadow_origin, light_dir);
        }
        if si.is_intersecting && si.distance < light_distance {
            let ratio: i64 = fx_div(si.distance, light_distance);
            return fx_sub(65536, crate::fx::fx_min(fx_mul(ratio, ratio), 65536));
        }
        k = k + 1;
    }
    0
}

/// The color a ray gathers from the scene, up to `MAX_DEPTH` bounces.
#[verifier::loop_isolation(false)]
#[verifier::rlimit(60)]
pub fn cast_ray(
    ray_origin: &Vec3,
    ray_direction: &Vec3,
    objects: &Vec<Cube>,
    light: &Light,
    depth: u32,
) -> (c: Color)
    requires
        scene_wf(objects@),
    ensures
        c == shade_s(objects@, *light, *ray_origin, *ray_direction, depth as int),
    decreases 4 - depth,
{
    if depth > MAX_DEPTH {
        return skybox_color();
    }
    let mut found: bool = false;
    let mut best: Intersect = Intersect::empty();
    let mut best_idx: usize = 0;
    let mut k: usize = 0;
    while k < objects.len()
        invariant
            0 <= k <= objects@.len(),
            found ==> best_idx < k,
            scan_hit_s(objects@, k as int, *ray_origin, *ray_direction) == if found {
                Some((best_idx as int, best))
            } else {
                Option::<(int, Intersect)>::None
            },
        decreases objects@.len() - k,
    {
        let i: Intersect = objects[k].ray_intersect(ray_origin, ray_direction);
        if i.is_intersecting && (!found || i.distance < best.distance) {
            found = true;
            best = i;
            best_idx = k;
        }
        k = k + 1;
    }
    if !found {
        return skybox_color();
    }
    let hit: Intersect = best;
    let m: &Material = &objects[best_idx].material;
    let surface: Color = surface_color(m, hit.face, hit.u, hit.v);
    let light_dir: Vec3 = light.position.sub_v(hit.point).normalize();
    let view_dir: Vec3 = ray_origin.sub_v(hit.point).normalize();
    let reflect_dir: Vec3 = reflect(&light_dir.neg_v(), &hit.normal).normalize();
    let shadow_intensity: i64 = cast_shadow(&hit, light, objects);
    let light_intensity: i64 = fx_mul(light.intensity, fx_sub(65536, shadow_intensity));
    let diffuse_intensity: i64 = fx_max(hit.normal.dot(light_dir), 0);
    let diffuse: Color = surface.scale(m.properties[0]).scale(diffuse_intensity).scale(
        light_intensity,
    );
    let specular_intensity: i64 = fx_pow(fx_max(view_dir.dot(reflect_dir), 0), m.shininess);
    let specular: Color = light.color.scale(m.properties[1]).scale(specular_intensity).scale(
        light_intensity,
    );
    let reflectivity: i64 = m.properties[2];
    let transparency: i64 = m.properties[3];
    let reflect_color: Color = if reflectivity > 0 {
        let rdir: Vec3 = reflect(ray_direction, &hit.normal).normalize();
        let rorigin: Vec3 = offset_origin(&hit, &rdir);
        cast_ray(&rorigin, &rdir, objects, light, depth + 1)
    } else {
        Color::black()
    };
    let refract_color: Color = if transparency > 0 {
        let tdir: Vec3 = refract(ray_direction, &hit.normal, m.refractive_index);
        let torigin: Vec3 = offset_origin(&hit, &tdir);
        cast_ray(&torigin, &tdir, objects, light, depth + 1)
    } else {
        Color::black()
    };
    let own: i64 = fx_sub(fx_sub(65536, reflectivity), transparency);
    diffuse.add_sat(specular).scale(own).add_sat(reflect_color.scale(reflectivity)).add_sat(
        refract_color.scale(transparency),
    )
}

} // verus!
