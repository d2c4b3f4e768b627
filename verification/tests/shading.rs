use raytracer::camera::Camera;
use raytracer::color::Color;
use raytracer::cube::Cube;
use raytracer::fx::FX_ONE;
use raytracer::light::Light;
use raytracer::material::Material;
use raytracer::ray_intersect::{CubeFace, Intersect, RayIntersect};
use raytracer::render::render;
use raytracer::shader::{cast_ray, cast_shadow, offset_origin, reflect, refract, surface_color};
use raytracer::texture::Texture;
use raytracer::vec3::Vec3;

fn sky() -> Color {
    Color::new(68, 142, 228)
}

fn white_light_above() -> Light {
    Light::new(Vec3::new(4 * FX_ONE, FX_ONE, 5 * FX_ONE), Color::new(255, 255, 255), 2 * FX_ONE)
}

fn solid_texture(r: u8, g: u8, b: u8) -> Texture {
    Texture::new(1, 1, vec![r, g, b, 255]).unwrap()
}

#[test]
fn empty_scene_gives_skybox() {
    let scene: Vec<Cube> = Vec::new();
    let c = cast_ray(
        &Vec3::new(0, 0, 0),
        &Vec3::new(0, 0, -FX_ONE),
        &scene,
        &white_light_above(),
        0,
    );
    assert_eq!(c, sky());
}

#[test]
fn depth_past_bound_gives_skybox() {
    let m = Material::new(Color::new(200, 50, 50), 1, [FX_ONE, 0, 0, 0], FX_ONE);
    let scene = vec![Cube::new(
        Vec3::new(-FX_ONE, -FX_ONE, -3 * FX_ONE),
        Vec3::new(FX_ONE, FX_ONE, -FX_ONE),
        m,
    )
    .unwrap()];
    let c = cast_ray(
        &Vec3::new(0, 0, 0),
        &Vec3::new(0, 0, -FX_ONE),
        &scene,
        &white_light_above(),
        4,
    );
    assert_eq!(c, sky());
}

#[test]
fn axis_hit_shades_reddish() {
    let m = Material::new(Color::new(200, 50, 50), 1, [FX_ONE, 0, 0, 0], FX_ONE);
    let scene = vec![Cube::new(
        Vec3::new(-FX_ONE, -FX_ONE, -3 * FX_ONE),
        Vec3::new(FX_ONE, FX_ONE, -FX_ONE),
        m,
    )
    .unwrap()];
    let c = cast_ray(
        &Vec3::new(0, 0, 0),
        &Vec3::new(0, 0, -FX_ONE),
        &scene,
        &white_light_above(),
        0,
    );
    assert_ne!(c, sky());
    assert!(c.r > c.g && c.r > c.b, "got {:?}", c);
}

#[test]
fn face_selection_picks_grass_and_dirt() {
    let m = Material::new(Color::new(0, 0, 0), 1, [FX_ONE, 0, 0, 0], FX_ONE)
        .with_textures(vec![solid_texture(0, 255, 0), solid_texture(139, 69, 19)]);
    let c = Cube::new(
        Vec3::new(-FX_ONE, 0, -FX_ONE),
        Vec3::new(FX_ONE, 2 * FX_ONE, FX_ONE),
        m,
    )
    .unwrap();
    let top = c.ray_intersect(&Vec3::new(0, 5 * FX_ONE, 0), &Vec3::new(0, -FX_ONE, 0));
    assert_eq!(top.face, CubeFace::Top);
    assert_eq!(surface_color(&c.material, top.face, top.u, top.v), Color::new(0, 255, 0));
    let side = c.ray_intersect(&Vec3::new(5 * FX_ONE, FX_ONE, 0), &Vec3::new(-FX_ONE, 0, 0));
    assert_eq!(side.face, CubeFace::PosX);
    assert_eq!(surface_color(&c.material, side.face, side.u, side.v), Color::new(139, 69, 19));
}

#[test]
fn single_texture_serves_every_face() {
    let m = Material::new(Color::new(9, 9, 9), 1, [FX_ONE, 0, 0, 0], FX_ONE)
        .with_textures(vec![solid_texture(10, 20, 30)]);
    assert_eq!(surface_color(&m, CubeFace::Top, 0, 0), Color::new(10, 20, 30));
    assert_eq!(surface_color(&m, CubeFace::NegX, 0, 0), Color::new(10, 20, 30));
    let bare = Material::new(Color::new(9, 9, 9), 1, [FX_ONE, 0, 0, 0], FX_ONE);
    assert_eq!(surface_color(&bare, CubeFace::PosZ, 0, 0), Color::new(9, 9, 9));
}

#[test]
fn offset_origin_biases_along_direction_side() {
    let hit = Intersect::new(
        Vec3::new(0, 0, 0),
        Vec3::new(0, FX_ONE, 0),
        FX_ONE,
        CubeFace::Top,
        0,
        0,
    );
    let up = offset_origin(&hit, &Vec3::new(0, FX_ONE, 0));
    assert_eq!(up, Vec3::new(0, 7, 0));
    let down = offset_origin(&hit, &Vec3::new(0, -FX_ONE, 0));
    assert_eq!(down, Vec3::new(0, -7, 0));
}

#[test]
fn reflect_mirrors_about_normal() {
    let i = Vec3::new(FX_ONE, -FX_ONE, 0);
    let n = Vec3::new(0, FX_ONE, 0);
    assert_eq!(reflect(&i, &n), Vec3::new(FX_ONE, FX_ONE, 0));
}

#[test]
fn refract_total_internal_reflection_is_reflection() {
    // Leaving a dense medium at a grazing angle: the discriminant is
    // negative and the refracted ray is exactly the reflected one about
    // the oriented (flipped) normal.
    let i = Vec3::new(63000, 13107, 0);
    let n = Vec3::new(0, FX_ONE, 0);
    let eta_glass = 98304; // 1.5
    let refracted = refract(&i, &n, eta_glass);
    let reflected = reflect(&i, &n.neg_v());
    assert_eq!(refracted, reflected);
}

#[test]
fn refract_straight_through_at_normal_incidence() {
    // Entering head-on: cos = 1, k = 1, so the direction is
    // eta * I + (eta - sqrt(1)) * (-N)... which stays on the axis.
    let i = Vec3::new(0, -FX_ONE, 0);
    let n = Vec3::new(0, FX_ONE, 0);
    let out = refract(&i, &n, 98304);
    assert_eq!(out.x, 0);
    assert!(out.y < 0, "refracted ray should keep going down, got {:?}", out);
    assert_eq!(out.z, 0);
}

#[test]
fn shadow_attenuates_by_squared_ratio() {
    // Light 4.0 above the hit point; an occluding slab between them whose
    // lower plane lies 1.0 up. The shadow ray starts at the bias height 7,
    // so it hits at distance 65529, and the attenuation is
    // 1 - (65529 / 262144)^2 in fixed point.
    let m = Material::new(Color::new(1, 1, 1), 1, [FX_ONE, 0, 0, 0], FX_ONE);
    let occluder = Cube::new(
        Vec3::new(-FX_ONE, FX_ONE, -FX_ONE),
        Vec3::new(FX_ONE, 2 * FX_ONE, FX_ONE),
        m,
    )
    .unwrap();
    let scene = vec![occluder];
    let hit = Intersect::new(
        Vec3::new(0, 0, 0),
        Vec3::new(0, FX_ONE, 0),
        FX_ONE,
        CubeFace::Top,
        0,
        0,
    );
    let light = Light::new(Vec3::new(0, 4 * FX_ONE, 0), Color::new(255, 255, 255), 2 * FX_ONE);
    assert_eq!(cast_shadow(&hit, &light, &scene), 61441);
    let empty: Vec<Cube> = Vec::new();
    assert_eq!(cast_shadow(&hit, &light, &empty), 0);
}

#[test]
fn nearest_box_wins() {
    // Two boxes stacked along -Z with distinct colors: the shading comes
    // from the nearer one.
    let near_m = Material::new(Color::new(250, 0, 0), 1, [FX_ONE, 0, 0, 0], FX_ONE);
    let far_m = Material::new(Color::new(0, 250, 0), 1, [FX_ONE, 0, 0, 0], FX_ONE);
    let near = Cube::new(
        Vec3::new(-FX_ONE, -FX_ONE, -3 * FX_ONE),
        Vec3::new(FX_ONE, FX_ONE, -FX_ONE),
        near_m,
    )
    .unwrap();
    let far = Cube::new(
        Vec3::new(-FX_ONE, -FX_ONE, -6 * FX_ONE),
        Vec3::new(FX_ONE, FX_ONE, -4 * FX_ONE),
        far_m,
    )
    .unwrap();
    let light = Light::new(Vec3::new(0, 10 * FX_ONE, 0), Color::new(255, 255, 255), 2 * FX_ONE);
    let origin = Vec3::new(0, 0, 0);
    let dir = Vec3::new(0, 0, -FX_ONE);
    // Scene order must not matter for the nearest-hit choice.
    let a = cast_ray(&origin, &dir, &vec![near.clone(), far.clone()], &light, 0);
    let b = cast_ray(&origin, &dir, &vec![far, near], &light, 0);
    assert_eq!(a, b);
    assert!(a.r > a.g, "nearer red box must win, got {:?}", a);
}

#[test]
fn pure_mirror_of_the_sky_is_the_sky() {
    // A box that only reflects: the composition weights collapse to the
    // reflected color, and the reflected ray escapes to the sky.
    let m = Material::new(Color::new(10, 10, 10), 1, [0, 0, FX_ONE, 0], FX_ONE);
    let scene = vec![Cube::new(
        Vec3::new(-FX_ONE, -FX_ONE, -3 * FX_ONE),
        Vec3::new(FX_ONE, FX_ONE, -FX_ONE),
        m,
    )
    .unwrap()];
    let c = cast_ray(
        &Vec3::new(0, 0, 0),
        &Vec3::new(0, 0, -FX_ONE),
        &scene,
        &white_light_above(),
        0,
    );
    assert_eq!(c, sky());
}

#[test]
fn glass_box_transmits_the_sky() {
    // A purely transparent box with the refractive index of glass: the
    // composition collapses to the refracted color, the head-on ray
    // passes straight through, and nothing lies behind.
    let m = Material::new(Color::new(0, 0, 0), 30, [0, 0, 0, FX_ONE], 98304);
    let scene = vec![Cube::new(
        Vec3::new(-FX_ONE, -FX_ONE, -3 * FX_ONE),
        Vec3::new(FX_ONE, FX_ONE, -FX_ONE),
        m,
    )
    .unwrap()];
    let c = cast_ray(
        &Vec3::new(0, 0, 0),
        &Vec3::new(0, 0, -FX_ONE),
        &scene,
        &white_light_above(),
        0,
    );
    assert_eq!(c, sky());
}

#[test]
fn diffuse_shading_exact_value() {
    // Head-on diffuse geometry where every fixed-point step is exact:
    // unit cosine, unit light intensity, no shadow, no specular, so the
    // output is exactly the base color.
    let m = Material::new(Color::new(100, 60, 20), 1, [FX_ONE, 0, 0, 0], FX_ONE);
    let scene = vec![Cube::new(
        Vec3::new(-FX_ONE, -FX_ONE, -FX_ONE),
        Vec3::new(FX_ONE, 0, FX_ONE),
        m,
    )
    .unwrap()];
    let light = Light::new(Vec3::new(0, 5 * FX_ONE, 0), Color::new(255, 255, 255), FX_ONE);
    let c = cast_ray(
        &Vec3::new(0, 2 * FX_ONE, 0),
        &Vec3::new(0, -FX_ONE, 0),
        &scene,
        &light,
        0,
    );
    assert_eq!(c, Color::new(100, 60, 20));
}

#[test]
fn render_empty_scene_is_all_skybox_pixels() {
    let scene: Vec<Cube> = Vec::new();
    let cam = Camera::new(
        Vec3::new(0, 0, 425984),
        Vec3::new(0, 0, 0),
        Vec3::new(0, FX_ONE, 0),
    );
    let frame = render(4, 3, &scene, &cam, &white_light_above());
    assert_eq!(frame.len(), 12);
    for p in frame {
        assert_eq!(p, 0x448EE4);
    }
}

#[test]
fn render_twice_is_byte_identical() {
    let m = Material::new(Color::new(200, 50, 50), 30, [FX_ONE, FX_ONE / 5, 0, 0], FX_ONE);
    let scene = vec![Cube::new(
        Vec3::new(-FX_ONE, -FX_ONE, -3 * FX_ONE),
        Vec3::new(FX_ONE, FX_ONE, -FX_ONE),
        m,
    )
    .unwrap()];
    let cam = Camera::new(
        Vec3::new(0, 0, 425984),
        Vec3::new(0, 0, 0),
        Vec3::new(0, FX_ONE, 0),
    );
    let light = white_light_above();
    let a = render(8, 6, &scene, &cam, &light);
    let b = render(8, 6, &scene, &cam, &light);
    assert_eq!(a, b);
    assert_eq!(a.len(), 48);
    // Something was actually drawn.
    assert!(a.iter().any(|&p| p != 0x448EE4));
}

#[test]
fn secondary_ray_clears_its_own_surface() {
    // A reflective floor under the sky: the bounced ray must not re-hit
    // the floor itself, so the mirror shows the sky, not shadow acne.
    let m = Material::new(Color::new(10, 10, 10), 1, [0, 0, FX_ONE, 0], FX_ONE);
    let floor = Cube::new(
        Vec3::new(-10 * FX_ONE, -2 * FX_ONE, -10 * FX_ONE),
        Vec3::new(10 * FX_ONE, -FX_ONE, 10 * FX_ONE),
        m,
    )
    .unwrap();
    let scene = vec![floor];
    // Slanted ray onto the top of the floor.
    let dir = Vec3::new(FX_ONE / 2, -FX_ONE, 0).normalize();
    let c = cast_ray(&Vec3::new(0, 0, 0), &dir, &scene, &white_light_above(), 0);
    assert_eq!(c, sky());
}
