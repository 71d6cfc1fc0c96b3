//! Intersection, shading, and render-loop tests.

use std::rc::Rc;

use refractor::camera::Camera;
use refractor::color::Color;
use refractor::cube::Cube;
use refractor::fixed::{FX_MAX, FX_ONE};
use refractor::framebuffer::Framebuffer;
use refractor::light::Light;
use refractor::material::Material;
use refractor::render::{cast_ray, render, skybox_color};
use refractor::texture::Texture;
use refractor::vec3::Vec3;

fn plain_material(diffuse: Color, albedo: [i64; 4]) -> Material {
    Material::new(diffuse, 50 * FX_ONE, albedo, FX_ONE, None, None, None)
}

fn unit_cube_at_origin(material: Material) -> Cube {
    Cube {
        min_corner: Vec3::new(-FX_ONE, -FX_ONE, -FX_ONE),
        max_corner: Vec3::new(FX_ONE, FX_ONE, FX_ONE),
        material,
    }
}

#[test]
fn front_face_hit_dead_center_has_centered_uv_and_outward_normal() {
    let cube = unit_cube_at_origin(plain_material(
        Color::new(FX_ONE, FX_ONE, FX_ONE),
        [FX_ONE, 0, 0, 0],
    ));
    let origin = Vec3::new(0, 0, 3 * FX_ONE);
    let direction = Vec3::new(0, 0, -FX_ONE);
    let hit = cube.ray_intersect(&origin, &direction);
    assert!(hit.is_intersecting);
    assert_eq!(hit.distance, 2 * FX_ONE);
    assert_eq!(hit.point, Vec3::new(0, 0, FX_ONE));
    assert_eq!(hit.normal, Vec3::new(0, 0, FX_ONE));
    let (u, v) = cube.get_texture_coordinates(&hit.point);
    assert_eq!(u, FX_ONE / 2);
    assert_eq!(v, FX_ONE / 2);
    assert_eq!(cube.calculate_normal(&hit.point), Vec3::new(0, 0, FX_ONE));
}

#[test]
fn box_behind_the_origin_reports_no_intersection() {
    // The slab interval narrows to a negative entry: the box is only
    // reachable by the reversed ray, so the policy reports a miss.
    let cube = Cube {
        min_corner: Vec3::new(-FX_ONE, -FX_ONE, FX_ONE),
        max_corner: Vec3::new(FX_ONE, FX_ONE, 3 * FX_ONE),
        material: plain_material(Color::new(FX_ONE, 0, 0), [FX_ONE, 0, 0, 0]),
    };
    let origin = Vec3::new(0, 0, 0);
    let direction = Vec3::new(0, 0, -FX_ONE);
    let hit = cube.ray_intersect(&origin, &direction);
    assert!(!hit.is_intersecting);
    assert_eq!(hit.distance, FX_MAX);
}

#[test]
fn axis_parallel_ray_outside_the_slab_misses() {
    let cube = unit_cube_at_origin(plain_material(
        Color::new(FX_ONE, 0, 0),
        [FX_ONE, 0, 0, 0],
    ));
    // The ray runs parallel to the box at x = 3: no intersection.
    let origin = Vec3::new(3 * FX_ONE, 0, 3 * FX_ONE);
    let direction = Vec3::new(0, 0, -FX_ONE);
    let hit = cube.ray_intersect(&origin, &direction);
    assert!(!hit.is_intersecting);
}

#[test]
fn textured_hit_resolves_the_sampled_diffuse() {
    let texture = Rc::new(Texture::new(
        2,
        2,
        vec![(255, 0, 0), (0, 255, 0), (0, 0, 255), (255, 255, 255)],
    ));
    let material = Material::new(
        Color::new(FX_ONE, FX_ONE, FX_ONE),
        50 * FX_ONE,
        [FX_ONE, 0, 0, 0],
        FX_ONE,
        Some(texture),
        None,
        None,
    );
    let cube = unit_cube_at_origin(material);
    let origin = Vec3::new(0, 0, 3 * FX_ONE);
    let direction = Vec3::new(0, 0, -FX_ONE);
    let hit = cube.ray_intersect(&origin, &direction);
    assert!(hit.is_intersecting);
    // (u, v) = (0.5, 0.5) selects column 1, row 1: the white texel.
    assert_eq!(hit.material.diffuse, Color::new(FX_ONE, FX_ONE, FX_ONE));
    // The other material fields pass through unchanged.
    assert_eq!(hit.material.specular, 50 * FX_ONE);
    assert_eq!(hit.material.albedo, [FX_ONE, 0, 0, 0]);
    assert!(hit.material.texture.is_some());
}

#[test]
fn normal_map_perturbs_the_geometric_normal() {
    // A normal map whose single texel encodes roughly (0, 0, 1) in tangent
    // space: the shading normal stays near the geometric +Z but picks up
    // the small decoded x and y components.
    let map = Rc::new(Texture::new(1, 1, vec![(128, 128, 255)]));
    let material = Material::new(
        Color::new(FX_ONE, FX_ONE, FX_ONE),
        50 * FX_ONE,
        [FX_ONE, 0, 0, 0],
        FX_ONE,
        None,
        Some(map),
        None,
    );
    let cube = unit_cube_at_origin(material);
    let origin = Vec3::new(0, 0, 3 * FX_ONE);
    let direction = Vec3::new(0, 0, -FX_ONE);
    let hit = cube.ray_intersect(&origin, &direction);
    assert!(hit.is_intersecting);
    assert_eq!(hit.normal, Vec3::new(-256, -256, FX_ONE));
}

#[test]
fn rays_missing_every_box_return_the_sky_at_every_depth() {
    let cube = Cube {
        min_corner: Vec3::new(-FX_ONE, -FX_ONE, -3 * FX_ONE),
        max_corner: Vec3::new(FX_ONE, FX_ONE, -FX_ONE),
        material: plain_material(Color::new(FX_ONE, 0, 0), [FX_ONE, 0, 0, 0]),
    };
    let objects = vec![cube];
    let lights = vec![Light::new(
        Vec3::new(0, 5 * FX_ONE, 5 * FX_ONE),
        Color::new(FX_ONE, FX_ONE, FX_ONE),
        2 * FX_ONE,
    )];
    let sky = skybox_color();
    let origin = Vec3::new(0, 0, 3 * FX_ONE);
    let away = Vec3::new(0, 0, FX_ONE);
    for depth in 0..6u32 {
        let c = cast_ray(&origin, &away, &objects, &lights, depth);
        assert_eq!(c, sky);
    }
    // An empty scene resolves to the sky as well.
    let toward = Vec3::new(0, 0, -FX_ONE);
    let none: Vec<Cube> = Vec::new();
    assert_eq!(cast_ray(&origin, &toward, &none, &lights, 0), sky);
}

#[test]
fn depth_beyond_the_bound_short_circuits_to_the_sky() {
    // Even a ray aimed straight at a box returns the sky once the
    // recursion depth passes the bound.
    let objects = vec![unit_cube_at_origin(plain_material(
        Color::new(FX_ONE, 0, 0),
        [FX_ONE, 0, 0, 0],
    ))];
    let lights: Vec<Light> = Vec::new();
    let origin = Vec3::new(0, 0, 3 * FX_ONE);
    let toward = Vec3::new(0, 0, -FX_ONE);
    assert_eq!(cast_ray(&origin, &toward, &objects, &lights, 4), skybox_color());
    assert!(cast_ray(&origin, &toward, &objects, &lights, 3) != skybox_color());
}

#[test]
fn two_facing_mirrors_terminate_at_the_depth_bound() {
    // Two fully mirrored boxes facing each other: every bounce reflects
    // everything, the chain stops at depth 4 and resolves to the sky.
    let mirror = [0, 0, FX_ONE, 0];
    let near = Cube {
        min_corner: Vec3::new(-FX_ONE, -FX_ONE, -3 * FX_ONE),
        max_corner: Vec3::new(FX_ONE, FX_ONE, -FX_ONE),
        material: plain_material(Color::new(FX_ONE, FX_ONE, FX_ONE), mirror),
    };
    let far = Cube {
        min_corner: Vec3::new(-FX_ONE, -FX_ONE, FX_ONE),
        max_corner: Vec3::new(FX_ONE, FX_ONE, 3 * FX_ONE),
        material: plain_material(Color::new(FX_ONE, FX_ONE, FX_ONE), mirror),
    };
    let objects = vec![near, far];
    let lights = vec![Light::new(
        Vec3::new(0, 5 * FX_ONE, 0),
        Color::new(FX_ONE, FX_ONE, FX_ONE),
        2 * FX_ONE,
    )];
    let origin = Vec3::new(0, 0, 0);
    let direction = Vec3::new(0, 0, -FX_ONE);
    // With no diffuse weight and full reflectivity each level hands back
    // its child's color unchanged, so the base case's sky comes through.
    let c = cast_ray(&origin, &direction, &objects, &lights, 0);
    assert_eq!(c, skybox_color());
}

#[test]
fn nearest_hit_wins_regardless_of_scene_order() {
    let red = plain_material(Color::new(FX_ONE, 0, 0), [FX_ONE, 0, 0, 0]);
    let blue = plain_material(Color::new(0, 0, FX_ONE), [FX_ONE, 0, 0, 0]);
    // Both boxes straddle the ray; the red one is entered first (t = 2)
    // and the blue one later (t = 3).
    let near = unit_cube_at_origin(red);
    let far = Cube {
        min_corner: Vec3::new(-FX_ONE, -FX_ONE, -3 * FX_ONE),
        max_corner: Vec3::new(FX_ONE, FX_ONE, 0),
        material: blue,
    };
    let origin = Vec3::new(0, 0, 3 * FX_ONE);
    let direction = Vec3::new(0, 0, -FX_ONE);
    let lights = vec![Light::new(
        Vec3::new(0, 0, 10 * FX_ONE),
        Color::new(FX_ONE, FX_ONE, FX_ONE),
        FX_ONE,
    )];

    let ordered = vec![near.clone(), far.clone()];
    let reversed = vec![far.clone(), near.clone()];
    let c1 = cast_ray(&origin, &direction, &ordered, &lights, 0);
    let c2 = cast_ray(&origin, &direction, &reversed, &lights, 0);
    assert_eq!(c1, c2);
    // The red material shades the hit: the contribution is pure red.
    assert_eq!(c1.g, 0);
    assert_eq!(c1.b, 0);
    assert!(c1.r > 0);
}

#[test]
fn diffuse_shading_follows_the_documented_formula() {
    // Light straight along the outward normal: the diffuse intensity is
    // exactly one, so the pixel is diffuse * albedo[0] * intensity.
    let material = plain_material(Color::new(FX_ONE, 0, 0), [FX_ONE / 2, 0, 0, 0]);
    let objects = vec![unit_cube_at_origin(material)];
    let lights = vec![Light::new(
        Vec3::new(0, 0, 10 * FX_ONE),
        Color::new(FX_ONE, FX_ONE, FX_ONE),
        2 * FX_ONE,
    )];
    let origin = Vec3::new(0, 0, 3 * FX_ONE);
    let direction = Vec3::new(0, 0, -FX_ONE);
    let c = cast_ray(&origin, &direction, &objects, &lights, 0);
    assert_eq!((c.r, c.g, c.b), (FX_ONE, 0, 0));
}

#[test]
fn emission_adds_before_any_light() {
    let material = Material::new(
        Color::new(FX_ONE, FX_ONE, FX_ONE),
        50 * FX_ONE,
        [0, 0, 0, 0],
        FX_ONE,
        None,
        None,
        Some(Color::new(FX_ONE / 4, FX_ONE / 8, 0)),
    );
    let objects = vec![unit_cube_at_origin(material)];
    let lights: Vec<Light> = Vec::new();
    let origin = Vec3::new(0, 0, 3 * FX_ONE);
    let direction = Vec3::new(0, 0, -FX_ONE);
    let c = cast_ray(&origin, &direction, &objects, &lights, 0);
    assert_eq!((c.r, c.g, c.b), (FX_ONE / 4, FX_ONE / 8, 0));
}

#[test]
fn light_contributions_sum_over_the_scene() {
    // Two identical lights double the single-light contribution.
    let material = plain_material(Color::new(FX_ONE / 2, 0, 0), [FX_ONE, 0, 0, 0]);
    let light = Light::new(
        Vec3::new(0, 0, 10 * FX_ONE),
        Color::new(FX_ONE, FX_ONE, FX_ONE),
        FX_ONE,
    );
    let objects = vec![unit_cube_at_origin(material)];
    let origin = Vec3::new(0, 0, 3 * FX_ONE);
    let direction = Vec3::new(0, 0, -FX_ONE);
    let one = cast_ray(&origin, &direction, &objects, &vec![light], 0);
    let two = cast_ray(&origin, &direction, &objects, &vec![light, light], 0);
    assert_eq!(two.r, 2 * one.r);
}

#[test]
fn render_fills_every_pixel_with_the_sky_on_an_empty_scene() {
    let mut framebuffer = Framebuffer::new(4, 3);
    let objects: Vec<Cube> = Vec::new();
    let lights: Vec<Light> = Vec::new();
    let camera = Camera::new(
        Vec3::new(0, 0, 0),
        Vec3::new(0, FX_ONE, 0),
        0,
        0,
        3 * FX_ONE,
    );
    render(&mut framebuffer, &objects, &camera, &lights);
    let sky = skybox_color().to_u32();
    assert_eq!(sky, 0x448EE2);
    assert_eq!(framebuffer.buffer.len(), 12);
    for pixel in &framebuffer.buffer {
        assert_eq!(*pixel, sky);
    }
}

#[test]
fn render_writes_hits_where_the_scene_is_visible() {
    // Pixel rays leave the eye away from the center (the basis maps the
    // camera-space -Z onto the view axis pointing outward), so a large
    // emissive box past the eye fills the frame with its emission.
    let material = Material::new(
        Color::new(FX_ONE, FX_ONE, FX_ONE),
        50 * FX_ONE,
        [0, 0, 0, 0],
        FX_ONE,
        None,
        None,
        Some(Color::new(FX_ONE, 0, 0)),
    );
    let objects = vec![Cube {
        min_corner: Vec3::new(-10 * FX_ONE, -10 * FX_ONE, 4 * FX_ONE),
        max_corner: Vec3::new(10 * FX_ONE, 10 * FX_ONE, 5 * FX_ONE),
        material,
    }];
    let lights: Vec<Light> = Vec::new();
    let camera = Camera::new(
        Vec3::new(0, 0, 0),
        Vec3::new(0, FX_ONE, 0),
        0,
        0,
        3 * FX_ONE,
    );
    let mut framebuffer = Framebuffer::new(3, 3);
    render(&mut framebuffer, &objects, &camera, &lights);
    let center = framebuffer.buffer[4];
    assert_eq!(center, 0xFF0000);
}
