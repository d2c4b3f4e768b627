use raytracer::camera::{Camera, ZOOM_FAR};
use raytracer::color::Color;
use raytracer::cube::Cube;
use raytracer::fx::FX_ONE;
use raytracer::material::Material;
use raytracer::ray_intersect::{CubeFace, Intersect, RayIntersect};
use raytracer::texture::Texture;
use raytracer::vec3::Vec3;

fn plain_material(color: Color) -> Material {
    Material::new(color, 1, [FX_ONE, 0, 0, 0], FX_ONE)
}

fn solid_texture(r: u8, g: u8, b: u8) -> Texture {
    Texture::new(1, 1, vec![r, g, b, 255]).unwrap()
}

#[test]
fn texture_new_rejects_bad_extents() {
    assert!(Texture::new(0, 1, vec![]).is_none());
    assert!(Texture::new(1, 0, vec![]).is_none());
    assert!(Texture::new(2, 1, vec![0; 4]).is_none());
    assert!(Texture::new(2, 1, vec![0; 8]).is_some());
}

#[test]
fn texture_samples_nearest_pixel() {
    // A 2x1 image: red on the left, green on the right.
    let t = Texture::new(2, 1, vec![255, 0, 0, 255, 0, 255, 0, 255]).unwrap();
    assert_eq!(t.get_color(0, 0), Color::new(255, 0, 0));
    assert_eq!(t.get_color(FX_ONE / 2, 0), Color::new(0, 255, 0));
    assert_eq!(t.get_color(FX_ONE / 4, FX_ONE / 2), Color::new(255, 0, 0));
}

#[test]
fn texture_wraps_on_both_axes() {
    let t = Texture::new(2, 2, vec![
        255, 0, 0, 255, 0, 255, 0, 255,
        0, 0, 255, 255, 9, 9, 9, 255,
    ]).unwrap();
    // v = 0 is the top row: the second row starts at v = 1/2.
    assert_eq!(t.get_color(0, 0), Color::new(255, 0, 0));
    assert_eq!(t.get_color(0, FX_ONE / 2), Color::new(0, 0, 255));
    assert_eq!(t.get_color(FX_ONE / 2, FX_ONE / 2), Color::new(9, 9, 9));
    for &(u, v) in &[(0i64, 0i64), (FX_ONE / 2, 0), (0, FX_ONE / 2), (FX_ONE / 4, 3 * FX_ONE / 4)] {
        assert_eq!(t.get_color(u, v), t.get_color(u + FX_ONE, v));
        assert_eq!(t.get_color(u, v), t.get_color(u, v + FX_ONE));
        assert_eq!(t.get_color(u, v), t.get_color(u - FX_ONE, v - FX_ONE));
    }
}

#[test]
fn material_predicates_follow_properties() {
    let m = Material::new(Color::new(1, 2, 3), 10, [FX_ONE, 0, 0, 0], FX_ONE);
    assert!(m.is_diffuse());
    assert!(!m.is_reflective());
    assert!(!m.is_transparent());
    let m2 = Material::new(Color::black(), 10, [0, FX_ONE / 2, FX_ONE / 4, FX_ONE / 8], FX_ONE);
    assert!(!m2.is_diffuse());
    assert!(m2.is_reflective());
    assert!(m2.is_transparent());
    let b = Material::black();
    assert_eq!(b.color, Color::black());
    assert!(b.is_diffuse());
}

#[test]
fn cube_new_rejects_degenerate_boxes() {
    let m = plain_material(Color::new(1, 1, 1));
    let lo = Vec3::new(0, 0, 0);
    let hi = Vec3::new(FX_ONE, FX_ONE, FX_ONE);
    assert!(Cube::new(lo, hi, m.clone()).is_some());
    assert!(Cube::new(hi, lo, m.clone()).is_none());
    assert!(Cube::new(lo, Vec3::new(FX_ONE, 0, FX_ONE), m).is_none());
}

#[test]
fn slab_hit_straight_on() {
    // Box spanning [-1,1]x[-1,1]x[-3,-1]; ray down the -Z axis from the origin.
    let m = plain_material(Color::new(200, 50, 50));
    let c = Cube::new(
        Vec3::new(-FX_ONE, -FX_ONE, -3 * FX_ONE),
        Vec3::new(FX_ONE, FX_ONE, -FX_ONE),
        m,
    )
    .unwrap();
    let hit = c.ray_intersect(&Vec3::new(0, 0, 0), &Vec3::new(0, 0, -FX_ONE));
    assert!(hit.is_intersecting);
    assert_eq!(hit.distance, FX_ONE);
    assert_eq!(hit.face, CubeFace::PosZ);
    assert_eq!(hit.normal, Vec3::new(0, 0, FX_ONE));
    assert_eq!(hit.point, Vec3::new(0, 0, -FX_ONE));
    assert_eq!((hit.u, hit.v), (FX_ONE / 2, FX_ONE / 2));
}

#[test]
fn slab_miss_behind_and_parallel() {
    let m = plain_material(Color::new(1, 1, 1));
    let c = Cube::new(
        Vec3::new(-FX_ONE, -FX_ONE, -3 * FX_ONE),
        Vec3::new(FX_ONE, FX_ONE, -FX_ONE),
        m,
    )
    .unwrap();
    // Looking away from the box.
    let away = c.ray_intersect(&Vec3::new(0, 0, 0), &Vec3::new(0, 0, FX_ONE));
    assert!(!away.is_intersecting);
    // Parallel to the X slabs, origin outside them.
    let par = c.ray_intersect(&Vec3::new(5 * FX_ONE, 0, -2 * FX_ONE), &Vec3::new(0, FX_ONE, 0));
    assert!(!par.is_intersecting);
    let par_x = c.ray_intersect(&Vec3::new(5 * FX_ONE, 0, 0), &Vec3::new(0, 0, -FX_ONE));
    assert!(!par_x.is_intersecting);
    // Origin inside the box: misses by design.
    let inside = c.ray_intersect(&Vec3::new(0, 0, -2 * FX_ONE), &Vec3::new(0, 0, -FX_ONE));
    assert!(!inside.is_intersecting);
}

#[test]
fn slab_faces_and_uv_on_textured_box() {
    // Box [-1,1]x[0,2]x[-1,1]; straight down onto the top, straight at +X.
    let m = plain_material(Color::new(0, 0, 0))
        .with_textures(vec![solid_texture(0, 255, 0), solid_texture(139, 69, 19)]);
    let c = Cube::new(
        Vec3::new(-FX_ONE, 0, -FX_ONE),
        Vec3::new(FX_ONE, 2 * FX_ONE, FX_ONE),
        m,
    )
    .unwrap();
    let top = c.ray_intersect(&Vec3::new(0, 5 * FX_ONE, 0), &Vec3::new(0, -FX_ONE, 0));
    assert!(top.is_intersecting);
    assert_eq!(top.face, CubeFace::Top);
    assert_eq!(top.normal, Vec3::new(0, FX_ONE, 0));
    let side = c.ray_intersect(&Vec3::new(5 * FX_ONE, FX_ONE, 0), &Vec3::new(-FX_ONE, 0, 0));
    assert!(side.is_intersecting);
    assert_eq!(side.face, CubeFace::PosX);
    assert_eq!(side.normal, Vec3::new(FX_ONE, 0, 0));
    assert!(side.u >= 0 && side.u <= FX_ONE && side.v >= 0 && side.v <= FX_ONE);
}

#[test]
fn intersect_constructors() {
    let e = Intersect::empty();
    assert!(!e.is_intersecting);
    assert_eq!(e.distance, 0);
    let h = Intersect::new(Vec3::zero(), Vec3::new(0, FX_ONE, 0), 42, CubeFace::Top, 1, 2);
    assert!(h.is_intersecting);
    assert_eq!(h.distance, 42);
    assert_eq!(h.face, CubeFace::Top);
}

#[test]
fn camera_basis_change_maps_axes() {
    let cam = Camera::new(
        Vec3::new(0, 0, 425984),
        Vec3::new(0, 0, 0),
        Vec3::new(0, FX_ONE, 0),
    );
    assert_eq!(cam.basis_change(&Vec3::new(FX_ONE, 0, 0)), Vec3::new(FX_ONE, 0, 0));
    assert_eq!(cam.basis_change(&Vec3::new(0, FX_ONE, 0)), Vec3::new(0, FX_ONE, 0));
    assert_eq!(cam.basis_change(&Vec3::new(0, 0, -FX_ONE)), Vec3::new(0, 0, -FX_ONE));
}

#[test]
fn camera_zoom_clamps_to_range() {
    let mut cam = Camera::new(
        Vec3::new(0, 0, 425984),
        Vec3::new(0, 0, 0),
        Vec3::new(0, FX_ONE, 0),
    );
    cam.zoom(FX_ONE / 2);
    assert_eq!(cam.eye.z, 425984 + FX_ONE / 2);
    cam.zoom(100 * FX_ONE);
    assert_eq!(cam.eye.z, ZOOM_FAR);
    cam.zoom(-100 * FX_ONE);
    assert_eq!(cam.eye.z, FX_ONE);
}

#[test]
fn camera_orbit_moves_eye_on_sphere() {
    let mut cam = Camera::new(
        Vec3::new(0, 0, 425984),
        Vec3::new(0, 0, 0),
        Vec3::new(0, FX_ONE, 0),
    );
    let before = cam.eye;
    cam.orbit(raytracer::fx::FX_PI, 0);
    // Half a turn of yaw carries the eye to the far side of the center.
    assert!(cam.eye.z < 0, "eye.z = {}", cam.eye.z);
    assert_eq!(cam.center, Vec3::zero());
    assert_eq!(cam.up, Vec3::new(0, FX_ONE, 0));
    assert!(cam.eye.z.abs() <= before.z);
    // Pitching up moves the eye off the equator.
    cam.orbit(0, raytracer::fx::FX_PI / 6);
    assert!(cam.eye.y != 0);
}
