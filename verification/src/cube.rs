//! Axis-aligned boxes and their ray intersection by the slab method.
//!
//! A ray is intersected with the three pairs of parallel planes bounding
//! the box. An axis whose direction component is zero constrains nothing
//! when the origin lies inside that slab and rules the box out when it
//! lies outside; the entry distance is the largest per-axis entry, the
//! exit distance the smallest per-axis exit, and the ray hits exactly
//! when the entry is non-negative and not past the exit. Rays starting
//! inside a box miss it by design, as do hits behind the origin.

use vstd::prelude::*;
use crate::fx::{
    clamp01, fx_add_s, fx_clamp, fx_div, fx_div_s, fx_max, fx_min, fx_mul_s, fx_sub, fx_sub_s,
    iabs, imax, imin, tdiv,
};
use crate::material::{mat_wf, Material};
use crate::ray_intersect::{
    empty_intersect, face_normal, face_normal_e, CubeFace, Intersect, RayIntersect,
};
use crate::vec3::{vadd_s, vscale_s, vsub_s, Vec3};

verus! {

#[derive(Clone, Debug)]
pub struct Cube {
    /// Componentwise minimum corner; strictly below `max` on every axis.
    pub min: Vec3,
    /// Componentwise maximum corner.
    pub max: Vec3,
    pub material: Material,
}

/// A well-formed box: strictly increasing corners on every axis and a
/// well-formed material.
pub open spec fn cube_wf(c: Cube) -> bool {
    &&& c.min.x < c.max.x
    &&& c.min.y < c.max.y
    &&& c.min.z < c.max.z
    &&& mat_wf(c.material)
}

/// Distance along the ray at which the plane `w == plane` is crossed,
/// on an axis with origin `o` and direction `d`.
pub open spec fn slab_t(o: int, d: int, plane: int) -> int
    recommends
        d != 0,
{
    fx_div_s(fx_sub_s(plane, o), d)
}

/// Entry distance contributed by one axis; an unconstrained axis
/// (direction component zero) contributes the least scalar.
pub open spec fn axis_enter(o: int, d: int, mn: int, mx: int) -> int {
    if d == 0 {
        i64::MIN as int
    } else {
        imin(slab_t(o, d, mn), slab_t(o, d, mx))
    }
}

/// Exit distance contributed by one axis; an unconstrained axis
/// contributes the greatest scalar.
pub open spec fn axis_exit(o: int, d: int, mn: int, mx: int) -> int {
    if d == 0 {
        i64::MAX as int
    } else {
        imax(slab_t(o, d, mn), slab_t(o, d, mx))
    }
}

/// Whether the ray runs parallel to some slab that its origin lies
/// outside of, which rules the box out whatever the other axes say.
pub open spec fn parallel_miss(c: Cube, o: Vec3, d: Vec3) -> bool {
    ||| (d.x == 0 && (o.x < c.min.x || o.x > c.max.x))
    ||| (d.y == 0 && (o.y < c.min.y || o.y > c.max.y))
    ||| (d.z == 0 && (o.z < c.min.z || o.z > c.max.z))
}

/// The ray's entry distance: the largest per-axis entry.
pub open spec fn enter_t(c: Cube, o: Vec3, d: Vec3) -> int {
    imax(
        imax(
            axis_enter(o.x as int, d.x as int, c.min.x as int, c.max.x as int),
            axis_enter(o.y as int, d.y as int, c.min.y as int, c.max.y as int),
        ),
        axis_enter(o.z as int, d.z as int, c.min.z as int, c.max.z as int),
    )
}

/// The ray's exit distance: the smallest per-axis exit.
pub open spec fn exit_t(c: Cube, o: Vec3, d: Vec3) -> int {
    imin(
        imin(
            axis_exit(o.x as int, d.x as int, c.min.x as int, c.max.x as int),
            axis_exit(o.y as int, d.y as int, c.min.y as int, c.max.y as int),
        ),
        axis_exit(o.z as int, d.z as int, c.min.z as int, c.max.z as int),
    )
}

/// Whether the ray hits the box: no parallel miss, entry at or before
/// exit, entry not behind the origin.
pub open spec fn hit_b(c: Cube, o: Vec3, d: Vec3) -> bool {
    &&& !parallel_miss(c, o, d)
    &&& enter_t(c, o, d) <= exit_t(c, o, d)
    &&& enter_t(c, o, d) >= 0
}

/// The face whose plane the entry distance belongs to; ties are resolved
/// in axis order X, Y, Z, the min plane before the max plane.
pub open spec fn hit_face(c: Cube, o: Vec3, d: Vec3) -> CubeFace {
    let t = enter_t(c, o, d);
    if d.x != 0 && t == slab_t(o.x as int, d.x as int, c.min.x as int) {
        CubeFace::NegX
    } else if d.x != 0 && t == slab_t(o.x as int, d.x as int, c.max.x as int) {
        CubeFace::PosX
    } else if d.y != 0 && t == slab_t(o.y as int, d.y as int, c.min.y as int) {
        CubeFace::Bottom
    } else if d.y != 0 && t == slab_t(o.y as int, d.y as int, c.max.y as int) {
        CubeFace::Top
    } else if d.z != 0 && t == slab_t(o.z as int, d.z as int, c.min.z as int) {
        CubeFace::NegZ
    } else {
        CubeFace::PosZ
    }
}

/// The hit point: origin plus entry distance times direction.
pub open spec fn hit_point(c: Cube, o: Vec3, d: Vec3) -> Vec3 {
    vadd_s(o, vscale_s(d, enter_t(c, o, d)))
}

/// The hit point's position inside the box, each axis rescaled to
/// `[0, 1]` and clamped there.
pub open spec fn hit_rel(c: Cube, o: Vec3, d: Vec3) -> Vec3 {
    let p = hit_point(c, o, d);
    let rel = vsub_s(p, c.min);
    let ext = vsub_s(c.max, c.min);
    Vec3 {
        x: clamp01(fx_div_s(rel.x as int, ext.x as int)) as i64,
        y: clamp01(fx_div_s(rel.y as int, ext.y as int)) as i64,
        z: clamp01(fx_div_s(rel.z as int, ext.z as int)) as i64,
    }
}

/// Local UV of the hit, by face class: top and bottom faces map the X
/// and Z positions, side faces map the horizontal position and the
/// flipped vertical position, which keeps textures upright.
pub open spec fn hit_uv(c: Cube, o: Vec3, d: Vec3) -> (int, int) {
    let rel = hit_rel(c, o, d);
    match hit_face(c, o, d) {
        CubeFace::Top => (rel.x as int, rel.z as int),
        CubeFace::Bottom => (rel.x as int, rel.z as int),
        CubeFace::PosX => (rel.z as int, fx_sub_s(65536, rel.y as int)),
        CubeFace::NegX => (rel.z as int, fx_sub_s(65536, rel.y as int)),
        CubeFace::PosZ => (rel.x as int, fx_sub_s(65536, rel.y as int)),
        CubeFace::NegZ => (rel.x as int, fx_sub_s(65536, rel.y as int)),
    }
}

/// The full record of the slab query: a miss record, or the hit with its
/// distance, point, face, outward normal and local UV.
pub open spec fn intersect_s(c: Cube, o: Vec3, d: Vec3) -> Intersect {
    if hit_b(c, o, d) {
        Intersect {
            point: hit_point(c, o, d),
            normal: face_normal(hit_face(c, o, d)),
            distance: enter_t(c, o, d) as i64,
            is_intersecting: true,
            face: hit_face(c, o, d),
            u: hit_uv(c, o, d).0 as i64,
            v: hit_uv(c, o, d).1 as i64,
        }
    } else {
        empty_intersect()
    }
}

/// A slab crossing lies strictly behind the origin when the plane lies
/// on the opposite side of the origin from where the direction points,
/// at least one unit away, and the direction component is at most one in
/// magnitude.
proof fn lemma_slab_away(diff: int, dd: int)
    requires
        (diff <= -1 && 1 <= dd <= 65536) || (diff >= 1 && -65536 <= dd <= -1),
    ensures
        fx_div_s(diff, dd) <= -1,
{
    let n = diff * 65536;
    assert(iabs(n) >= 65536 && iabs(dd) <= 65536 && ((n < 0) != (dd < 0)));
    vstd::arithmetic::div_mod::lemma_div_non_zero(iabs(n), iabs(dd));
    assert(tdiv(n, dd) == -(iabs(n) / iabs(dd)));
}

/// A ray whose origin lies strictly beyond one face of the box, and
/// whose direction does not move back toward that face (and has at most
/// unit magnitude on that axis), misses the box. This is the guarantee
/// behind the origin bias: a secondary ray displaced off the surface it
/// spawned from cannot re-hit that surface.
pub proof fn lemma_offside_ray_misses(c: Cube, o: Vec3, d: Vec3)
    requires
        cube_wf(c),
        ({
            ||| (o.x > c.max.x && 0 <= d.x <= 65536)
            ||| (o.x < c.min.x && -65536 <= d.x <= 0)
            ||| (o.y > c.max.y && 0 <= d.y <= 65536)
            ||| (o.y < c.min.y && -65536 <= d.y <= 0)
            ||| (o.z > c.max.z && 0 <= d.z <= 65536)
            ||| (o.z < c.min.z && -65536 <= d.z <= 0)
        }),
    ensures
        !hit_b(c, o, d),
        !intersect_s(c, o, d).is_intersecting,
{
    if o.x > c.max.x && 0 <= d.x <= 65536 {
        if d.x != 0 {
            lemma_slab_away(fx_sub_s(c.min.x as int, o.x as int), d.x as int);
            lemma_slab_away(fx_sub_s(c.max.x as int, o.x as int), d.x as int);
        }
    } else if o.x < c.min.x && -65536 <= d.x <= 0 {
        if d.x != 0 {
            lemma_slab_away(fx_sub_s(c.min.x as int, o.x as int), d.x as int);
            lemma_slab_away(fx_sub_s(c.max.x as int, o.x as int), d.x as int);
        }
    } else if o.y > c.max.y && 0 <= d.y <= 65536 {
        if d.y != 0 {
            lemma_slab_away(fx_sub_s(c.min.y as int, o.y as int), d.y as int);
            lemma_slab_away(fx_sub_s(c.max.y as int, o.y as int), d.y as int);
        }
    } else if o.y < c.min.y && -65536 <= d.y <= 0 {
        if d.y != 0 {
            lemma_slab_away(fx_sub_s(c.min.y as int, o.y as int), d.y as int);
            lemma_slab_away(fx_sub_s(c.max.y as int, o.y as int), d.y as int);
        }
    } else if o.z > c.max.z && 0 <= d.z <= 65536 {
        if d.z != 0 {
            lemma_slab_away(fx_sub_s(c.min.z as int, o.z as int), d.z as int);
            lemma_slab_away(fx_sub_s(c.max.z as int, o.z as int), d.z as int);
        }
    } else {
        if d.z != 0 {
            lemma_slab_away(fx_sub_s(c.min.z as int, o.z as int), d.z as int);
            lemma_slab_away(fx_sub_s(c.max.z as int, o.z as int), d.z as int);
        }
    }
}

/// A downward ray that enters through the top face from above never
/// lands below the face plane: the entry distance is truncated toward
/// zero, so the computed hit point stays on or above the plane. The
/// premises keep every intermediate value far from saturation: the
/// origin at most 2^46 units above the face and a direction of at most
/// unit magnitude on the vertical axis.
pub proof fn lemma_top_hit_point_on_surface(c: Cube, o: Vec3, d: Vec3)
    requires
        cube_wf(c),
        hit_b(c, o, d),
        hit_face(c, o, d) == CubeFace::Top,
        -65536 <= d.y <= -1,
        o.y > c.max.y,
        o.y - c.max.y <= 0x400000000000,
    ensures
        hit_point(c, o, d).y >= c.max.y,
        hit_point(c, o, d).y <= o.y,
{
    let t = enter_t(c, o, d);
    assert(t == slab_t(o.y as int, d.y as int, c.max.y as int));
    let dd = d.y as int;
    let dif = c.max.y - o.y;
    assert(fx_sub_s(c.max.y as int, o.y as int) == dif);
    let num = dif * 65536;
    assert(-0x400000000000 * 65536 <= num <= -65536);
    let q = iabs(num) / iabs(dd);
    assert(tdiv(num, dd) == q);
    vstd::arithmetic::div_mod::lemma_div_is_ordered_by_denominator(iabs(num), 1, iabs(dd));
    vstd::arithmetic::div_mod::lemma_div_basics(iabs(num));
    assert(q <= iabs(num));
    vstd::arithmetic::div_mod::lemma_div_pos_is_pos(iabs(num), iabs(dd));
    assert(t == q);
    // The remainder form of the division bounds d.y * t from below.
    vstd::arithmetic::div_mod::lemma_fundamental_div_mod(iabs(num), iabs(dd));
    vstd::arithmetic::div_mod::lemma_mod_bound(iabs(num), iabs(dd));
    let r = iabs(num) % iabs(dd);
    assert(iabs(num) == iabs(dd) * q + r);
    assert(dd * q == -(iabs(dd) * q)) by (nonlinear_arith)
        requires
            dd < 0 && iabs(dd) == -dd,
    ;
    assert(dd * q >= num);
    assert(dd * q <= 0) by (nonlinear_arith)
        requires
            dd < 0 && q >= 0,
    ;
    // Scaling back down keeps the bound: fx_mul_s(d.y, t) is between
    // dif and 0.
    let m = tdiv(dd * q, 65536);
    assert(iabs(dd * q) <= iabs(num));
    vstd::arithmetic::div_mod::lemma_div_is_ordered(iabs(dd * q), iabs(num), 65536);
    vstd::arithmetic::div_mod::lemma_div_multiples_vanish(-dif, 65536);
    assert(iabs(num) / 65536 == -dif);
    assert(m >= dif && m <= 0);
    assert(fx_mul_s(dd, t) == m);
    assert(hit_point(c, o, d).y == fx_add_s(o.y as int, m));
}

impl Cube {
    /// A box from its two corners and material; `None` when some axis is
    /// not strictly increasing, which the slab test could not handle.
    pub fn new(min: Vec3, max: Vec3, material: Material) -> (r: Option<Cube>)
        requires
            mat_wf(material),
        ensures
            r is Some <==> min.x < max.x && min.y < max.y && min.z < max.z,
            r is Some ==> r == Some(Cube { min, max, material }),
            r is Some ==> cube_wf(r->Some_0),
    {
        if min.x < max.x && min.y < max.y && min.z < max.z {
            Some(Cube { min, max, material })
        } else {
            None
        }
    }

    /// A hit record reports the outward normal of its face, UV inside the
    /// unit square, and a distance not behind the origin.
    pub proof fn lemma_intersect_props(c: Cube, o: Vec3, d: Vec3)
        ensures
            intersect_s(c, o, d).is_intersecting ==> {
                let r = intersect_s(c, o, d);
                &&& r.normal == face_normal(r.face)
                &&& 0 <= r.u <= 65536
                &&& 0 <= r.v <= 65536
                &&& r.distance >= 0
            },
    {
    }
}

impl RayIntersect for Cube {
    /// The slab query's model.
    open spec fn intersect_model(&self, origin: Vec3, direction: Vec3) -> Intersect {
        intersect_s(*self, origin, direction)
    }

    /// The slab query needs strictly increasing corners.
    open spec fn ray_query_wf(&self) -> bool {
        cube_wf(*self)
    }

    /// The slab-method ray query.
    fn ray_intersect(&self, ray_origin: &Vec3, ray_direction: &Vec3) -> (r: Intersect) {
        let o: Vec3 = *ray_origin;
        let d: Vec3 = *ray_direction;
        if d.x == 0 && (o.x < self.min.x || o.x > self.max.x) {
            return Intersect::empty();
        }
        if d.y == 0 && (o.y < self.min.y || o.y > self.max.y) {
            return Intersect::empty();
        }
        if d.z == 0 && (o.z < self.min.z || o.z > self.max.z) {
            return Intersect::empty();
        }
        let t1x: i64 = if d.x != 0 { fx_div(fx_sub(self.min.x, o.x), d.x) } else { 0 };
        let t2x: i64 = if d.x != 0 { fx_div(fx_sub(self.max.x, o.x), d.x) } else { 0 };
        let t1y: i64 = if d.y != 0 { fx_div(fx_sub(self.min.y, o.y), d.y) } else { 0 };
        let t2y: i64 = if d.y != 0 { fx_div(fx_sub(self.max.y, o.y), d.y) } else { 0 };
        let t1z: i64 = if d.z != 0 { fx_div(fx_sub(self.min.z, o.z), d.z) } else { 0 };
        let t2z: i64 = if d.z != 0 { fx_div(fx_sub(self.max.z, o.z), d.z) } else { 0 };
        let enter_x: i64 = if d.x != 0 { fx_min(t1x, t2x) } else { i64::MIN };
        let enter_y: i64 = if d.y != 0 { fx_min(t1y, t2y) } else { i64::MIN };
        let enter_z: i64 = if d.z != 0 { fx_min(t1z, t2z) } else { i64::MIN };
        let exit_x: i64 = if d.x != 0 { fx_max(t1x, t2x) } else { i64::MAX };
        let exit_y: i64 = if d.y != 0 { fx_max(t1y, t2y) } else { i64::MAX };
        let exit_z: i64 = if d.z != 0 { fx_max(t1z, t2z) } else { i64::MAX };
        let t_enter: i64 = fx_max(fx_max(enter_x, enter_y), enter_z);
        let t_exit: i64 = fx_min(fx_min(exit_x, exit_y), exit_z);
        if t_exit < t_enter || t_enter < 0 {
            return Intersect::empty();
        }
        let face: CubeFace = if d.x != 0 && t_enter == t1x {
            CubeFace::NegX
        } else if d.x != 0 && t_enter == t2x {
            CubeFace::PosX
        } else if d.y != 0 && t_enter == t1y {
            CubeFace::Bottom
        } else if d.y != 0 && t_enter == t2y {
            CubeFace::Top
        } else if d.z != 0 && t_enter == t1z {
            CubeFace::NegZ
        } else {
            CubeFace::PosZ
        };
        let point: Vec3 = o.add_v(d.scale_v(t_enter));
        let rel: Vec3 = point.sub_v(self.min);
        let ext: Vec3 = self.max.sub_v(self.min);
        let px: i64 = fx_clamp(fx_div(rel.x, ext.x), 0, 65536);
        let py: i64 = fx_clamp(fx_div(rel.y, ext.y), 0, 65536);
        let pz: i64 = fx_clamp(fx_div(rel.z, ext.z), 0, 65536);
        let uv: (i64, i64) = match face {
            CubeFace::Top => (px, pz),
            CubeFace::Bottom => (px, pz),
            CubeFace::PosX => (pz, fx_sub(65536, py)),
            CubeFace::NegX => (pz, fx_sub(65536, py)),
            CubeFace::PosZ => (px, fx_sub(65536, py)),
            CubeFace::NegZ => (px, fx_sub(65536, py)),
        };
        Intersect::new(point, face_normal_e(face), t_enter, face, uv.0, uv.1)
    }
}

} // verus!
