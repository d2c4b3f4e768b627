//! The orbiting camera: an eye, a look-at center and a world up vector,
//! with the orthonormal-basis change for camera-space directions, an
//! orbit step, and a clamped zoom.

use vstd::prelude::*;
use crate::fx::{
    fx_abs, fx_add, fx_add_s, fx_clamp, fx_cos, fx_cos_s, fx_mul, fx_mul_s, fx_sin, fx_sin_s,
    fx_sub, fx_sub_s, iabs, iclamp, sat64,
};
use crate::vec3::{cross_s, mag_s, normalize_s, vadd_s, vneg_s, vscale_s, vsub_s, Vec3};

verus! {

/// Nearest eye height the zoom may reach (1.0).
pub const ZOOM_NEAR: i64 = 65536;
/// Farthest eye height the zoom may reach (10.0).
pub const ZOOM_FAR: i64 = 655360;
/// The orbit keeps the eye's elevation below this fraction of its
/// distance from the center (about sin of 86.6 degrees), away from the
/// poles where the up vector would degenerate.
pub const PITCH_LIMIT: i64 = 65404;

#[derive(Clone, Copy, PartialEq, Eq, Structural, Debug)]
pub struct Camera {
    pub eye: Vec3,
    pub center: Vec3,
    /// World up; unit length by convention.
    pub up: Vec3,
}

/// A camera-space direction rewritten into world space: the camera looks
/// down its local -Z, so the result is
/// `v.x * right + v.y * up' + (-v.z) * forward` over the orthonormal
/// basis derived from eye, center and up.
pub open spec fn basis_change_s(cam: Camera, v: Vec3) -> Vec3 {
    let forward = normalize_s(vsub_s(cam.center, cam.eye));
    let right = normalize_s(cross_s(forward, cam.up));
    let up2 = cross_s(right, forward);
    vadd_s(
        vadd_s(vscale_s(right, v.x as int), vscale_s(up2, v.y as int)),
        vscale_s(forward, fx_sub_s(0, v.z as int)),
    )
}

/// `v` rotated about the world Y axis by the angle whose sine and cosine
/// are `s` and `c`.
pub open spec fn yaw_rot_s(v: Vec3, s: int, c: int) -> Vec3 {
    Vec3 {
        x: fx_add_s(fx_mul_s(c, v.x as int), fx_mul_s(s, v.z as int)) as i64,
        y: v.y,
        z: fx_sub_s(fx_mul_s(c, v.z as int), fx_mul_s(s, v.x as int)) as i64,
    }
}

/// Where the eye moves under an orbit step: the offset from the center is
/// yaw-rotated about the world Y axis, then pitch-rotated about the
/// camera's right axis; the pitch step is skipped when it would carry the
/// elevation past `PITCH_LIMIT` times the orbit radius.
pub open spec fn orbit_eye_s(cam: Camera, dyaw: int, dpitch: int) -> Vec3 {
    let v = vsub_s(cam.eye, cam.center);
    let v1 = yaw_rot_s(v, fx_sin_s(dyaw), fx_cos_s(dyaw));
    let forward = normalize_s(vneg_s(v1));
    let right = normalize_s(cross_s(forward, cam.up));
    let v2 = vadd_s(
        vscale_s(v1, fx_cos_s(dpitch)),
        vscale_s(cross_s(right, v1), fx_sin_s(dpitch)),
    );
    let kept = if sat64(iabs(v2.y as int)) < fx_mul_s(PITCH_LIMIT as int, mag_s(v2)) {
        v2
    } else {
        v1
    };
    vadd_s(cam.center, kept)
}

impl Camera {
    /// A camera from its eye, center and up vector.
    pub fn new(eye: Vec3, center: Vec3, up: Vec3) -> (c: Camera)
        ensures
            c == (Camera { eye, center, up }),
    {
        Camera { eye, center, up }
    }

    /// Rewrite a camera-space direction into world space.
    pub fn basis_change(&self, v: &Vec3) -> (r: Vec3)
        ensures
            r == basis_change_s(*self, *v),
    {
        let forward: Vec3 = self.center.sub_v(self.eye).normalize();
        let right: Vec3 = forward.cross(self.up).normalize();
        let up2: Vec3 = right.cross(forward);
        right.scale_v(v.x).add_v(up2.scale_v(v.y)).add_v(forward.scale_v(fx_sub(0, v.z)))
    }

    /// Rotate the eye around the center: `dyaw` about the world Y axis,
    /// then `dpitch` about the camera's right axis, the latter skipped
    /// where it would carry the eye too close to a pole.
    pub fn orbit(&mut self, dyaw: i64, dpitch: i64)
        ensures
            final(self).eye == orbit_eye_s(*old(self), dyaw as int, dpitch as int),
            final(self).center == old(self).center,
            final(self).up == old(self).up,
    {
        let v: Vec3 = self.eye.sub_v(self.center);
        let v1: Vec3 = Vec3 {
            x: fx_add(fx_mul(fx_cos(dyaw), v.x), fx_mul(fx_sin(dyaw), v.z)),
            y: v.y,
            z: fx_sub(fx_mul(fx_cos(dyaw), v.z), fx_mul(fx_sin(dyaw), v.x)),
        };
        let forward: Vec3 = v1.neg_v().normalize();
        let right: Vec3 = forward.cross(self.up).normalize();
        let v2: Vec3 = v1.scale_v(fx_cos(dpitch)).add_v(right.cross(v1).scale_v(fx_sin(dpitch)));
        let kept: Vec3 = if fx_abs(v2.y) < fx_mul(PITCH_LIMIT, v2.magnitude()) {
            v2
        } else {
            v1
        };
        self.eye = self.center.add_v(kept);
    }

    /// Move the eye along its Z coordinate, clamped to the zoom range.
    pub fn zoom(&mut self, delta: i64)
        ensures
            final(self).eye.x == old(self).eye.x,
            final(self).eye.y == old(self).eye.y,
            final(self).eye.z == iclamp(
                fx_add_s(old(self).eye.z as int, delta as int),
                ZOOM_NEAR as int,
                ZOOM_FAR as int,
            ),
            final(self).center == old(self).center,
            final(self).up == old(self).up,
    {
        self.eye.z = fx_clamp(fx_add(self.eye.z, delta), ZOOM_NEAR, ZOOM_FAR);
    }
}

} // verus!
