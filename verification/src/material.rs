//! Surface parameters: base color, specular exponent, the four shading
//! coefficients (diffuse, specular, reflectivity, transparency) in 16.16
//! fixed point, a refractive index, and an optional per-face texture bank.

use vstd::prelude::*;
use crate::color::Color;
use crate::texture::{tex_wf, Texture};

verus! {

#[derive(Clone, Debug)]
pub struct Material {
    /// Color used when no texture applies.
    pub color: Color,
    /// Specular (Phong) exponent.
    pub shininess: u32,
    /// Shading coefficients `[diffuse, specular, reflectivity, transparency]`,
    /// each a 16.16 fixed-point scalar.
    pub properties: [i64; 4],
    /// Refractive index as a 16.16 fixed-point scalar (air is 65536).
    pub refractive_index: i64,
    /// Texture bank indexed by face class: entry 0 serves the top face,
    /// entry 1 every other face; a single entry serves all faces; an empty
    /// bank means the base color is used.
    pub textures: Vec<Texture>,
}

/// A well-formed material: every texture in the bank is well-formed.
pub open spec fn mat_wf(m: Material) -> bool {
    forall|i: int| 0 <= i < m.textures@.len() ==> tex_wf(#[trigger] m.textures@[i])
}

impl Material {
    /// A material without textures.
    pub fn new(color: Color, shininess: u32, properties: [i64; 4], refractive_index: i64) -> (m:
        Material)
        ensures
            m.color == color,
            m.shininess == shininess,
            m.properties == properties,
            m.refractive_index == refractive_index,
            m.textures@.len() == 0,
            mat_wf(m),
    {
        Material { color, shininess, properties, refractive_index, textures: Vec::new() }
    }

    /// A black, inert material: every coefficient zero, the refractive
    /// index of air, no textures.
    pub fn black() -> (m: Material)
        ensures
            m.color == (Color { r: 0, g: 0, b: 0 }),
            m.shininess == 0,
            m.properties == [0i64, 0i64, 0i64, 0i64],
            m.refractive_index == 65536,
            m.textures@.len() == 0,
            mat_wf(m),
    {
        Material {
            color: Color { r: 0, g: 0, b: 0 },
            shininess: 0,
            properties: [0i64, 0i64, 0i64, 0i64],
            refractive_index: 65536,
            textures: Vec::new(),
        }
    }

    /// The same material with the given texture bank attached.
    pub fn with_textures(self, textures: Vec<Texture>) -> (m: Material)
        requires
            forall|i: int| 0 <= i < textures@.len() ==> tex_wf(#[trigger] textures@[i]),
        ensures
            m.color == self.color,
            m.shininess == self.shininess,
            m.properties == self.properties,
            m.refractive_index == self.refractive_index,
            m.textures == textures,
            mat_wf(m),
    {
        Material {
            color: self.color,
            shininess: self.shininess,
            properties: self.properties,
            refractive_index: self.refractive_index,
            textures,
        }
    }

    /// Whether the material scatters only diffusely: no specular and no
    /// reflective coefficient.
    pub fn is_diffuse(&self) -> (r: bool)
        ensures
            r == (self.properties[1] == 0 && self.properties[2] == 0),
    {
        self.properties[1] == 0 && self.properties[2] == 0
    }

    /// Whether the material has a positive reflective coefficient.
    pub fn is_reflective(&self) -> (r: bool)
        ensures
            r == (self.properties[2] > 0),
    {
        self.properties[2] > 0
    }

    /// Whether the material has a positive transparency coefficient.
    pub fn is_transparent(&self) -> (r: bool)
        ensures
            r == (self.properties[3] > 0),
    {
        self.properties[3] > 0
    }
}

} // verus!
