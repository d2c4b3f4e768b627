//! A whitted-style recursive raytracer core for scenes of axis-aligned,
//! per-face textured boxes.
//!
//! All geometry and shading arithmetic is carried out in signed 16.16
//! fixed-point numbers so that every routine has an exact, machine-checked
//! contract: ray/box intersection by the slab method, face-aware texture
//! sampling with UV wrap, the recursive shading model (diffuse, specular,
//! reflection, refraction, attenuated shadows) with a hard recursion bound,
//! and the per-pixel ray generation of the renderer.

pub mod fx;
pub mod color;
pub mod vec3;
pub mod texture;
pub mod material;
pub mod light;
pub mod ray_intersect;
pub mod cube;
pub mod shader;
pub mod camera;
pub mod render;
