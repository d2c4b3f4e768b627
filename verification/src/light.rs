//! A single point light: position, color and a 16.16 fixed-point intensity.

use vstd::prelude::*;
use crate::color::Color;
use crate::vec3::Vec3;

verus! {

#[derive(Clone, Copy, Debug)]
pub struct Light {
    pub position: Vec3,
    pub color: Color,
    pub intensity: i64,
}

impl Light {
    /// A point light from its position, color and intensity.
    pub fn new(position: Vec3, color: Color, intensity: i64) -> (l: Light)
        ensures
            l.position == position,
            l.color == color,
            l.intensity == intensity,
    {
        Light { position, color, intensity }
    }
}

} // verus!
