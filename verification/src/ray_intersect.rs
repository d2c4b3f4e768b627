//! The intersection record a ray/box query produces and the face classes
//! of an axis-aligned box.

use vstd::prelude::*;
use crate::vec3::Vec3;

verus! {

/// The six outward orientations of an axis-aligned box face.
#[derive(Clone, Copy, PartialEq, Eq, Structural, Debug)]
pub enum CubeFace {
    PosX,
    NegX,
    /// +Y.
    Top,
    /// -Y.
    Bottom,
    PosZ,
    NegZ,
}

/// The outward unit normal (16.16 fixed point) of a face class.
pub open spec fn face_normal(f: CubeFace) -> Vec3 {
    match f {
        CubeFace::PosX => Vec3 { x: 65536, y: 0, z: 0 },
        CubeFace::NegX => Vec3 { x: -65536i64, y: 0, z: 0 },
        CubeFace::Top => Vec3 { x: 0, y: 65536, z: 0 },
        CubeFace::Bottom => Vec3 { x: 0, y: -65536i64, z: 0 },
        CubeFace::PosZ => Vec3 { x: 0, y: 0, z: 65536 },
        CubeFace::NegZ => Vec3 { x: 0, y: 0, z: -65536i64 },
    }
}

/// The outward unit normal of a face class.
pub fn face_normal_e(f: CubeFace) -> (n: Vec3)
    ensures
        n == face_normal(f),
{
    match f {
        CubeFace::PosX => Vec3 { x: 65536, y: 0, z: 0 },
        CubeFace::NegX => Vec3 { x: -65536, y: 0, z: 0 },
        CubeFace::Top => Vec3 { x: 0, y: 65536, z: 0 },
        CubeFace::Bottom => Vec3 { x: 0, y: -65536, z: 0 },
        CubeFace::PosZ => Vec3 { x: 0, y: 0, z: 65536 },
        CubeFace::NegZ => Vec3 { x: 0, y: 0, z: -65536 },
    }
}

/// What a ray/box query reports: whether it hit and, if so, where, how
/// far along the ray, on which face, with which outward normal and which
/// local UV coordinates (16.16 fixed point, in `[0, 1]`).
#[derive(Clone, Copy, PartialEq, Eq, Structural, Debug)]
pub struct Intersect {
    pub point: Vec3,
    pub normal: Vec3,
    pub distance: i64,
    pub is_intersecting: bool,
    pub face: CubeFace,
    pub u: i64,
    pub v: i64,
}

/// A shape a ray can be intersected with. The shader depends only on
/// this nearest-hit query, not on what the shape is: an implementor
/// names the mathematical model of its query and the well-formedness it
/// needs, and the executable query must return exactly the model.
pub trait RayIntersect {
    /// What the query returns, as a mathematical function.
    spec fn intersect_model(&self, origin: Vec3, direction: Vec3) -> Intersect;

    /// The well-formedness the query relies on.
    spec fn ray_query_wf(&self) -> bool;

    /// The ray query.
    fn ray_intersect(&self, ray_origin: &Vec3, ray_direction: &Vec3) -> (r: Intersect)
        requires
            self.ray_query_wf(),
        ensures
            r == self.intersect_model(*ray_origin, *ray_direction),
    ;
}

/// The record of a miss.
pub open spec fn empty_intersect() -> Intersect {
    Intersect {
        point: Vec3 { x: 0, y: 0, z: 0 },
        normal: Vec3 { x: 0, y: 0, z: 0 },
        distance: 0,
        is_intersecting: false,
        face: CubeFace::Top,
        u: 0,
        v: 0,
    }
}

impl Intersect {
    /// A hit record.
    pub fn new(point: Vec3, normal: Vec3, distance: i64, face: CubeFace, u: i64, v: i64) -> (r:
        Intersect)
        ensures
            r == (Intersect { point, normal, distance, is_intersecting: true, face, u, v }),
    {
        Intersect { point, normal, distance, is_intersecting: true, face, u, v }
    }

    /// The record of a miss.
    pub fn empty() -> (r: Intersect)
        ensures
            r == empty_intersect(),
    {
        Intersect {
            point: Vec3 { x: 0, y: 0, z: 0 },
            normal: Vec3 { x: 0, y: 0, z: 0 },
            distance: 0,
            is_intersecting: false,
            face: CubeFace::Top,
            u: 0,
            v: 0,
        }
    }
}

} // verus!
