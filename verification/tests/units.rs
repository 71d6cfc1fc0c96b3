//! Scalar, color, texture, and camera unit tests.

use refractor::camera::{cos_b, sin_b, Camera, TURN};
use refractor::color::Color;
use refractor::fixed::{fx_clamp, fx_div, fx_mul, fx_sqrt, FX_MAX, FX_ONE};
use refractor::texture::Texture;
use refractor::vec3::Vec3;

#[test]
fn division_by_zero_saturates_with_numerator_sign() {
    assert_eq!(fx_div(FX_ONE, 0), FX_MAX);
    assert_eq!(fx_div(-FX_ONE, 0), -FX_MAX);
    assert_eq!(fx_div(0, 0), FX_MAX);
}

#[test]
fn division_truncates_toward_zero() {
    // 1 / 3 and -1 / 3 in fixed point: symmetric magnitudes.
    assert_eq!(fx_div(FX_ONE, 3 * FX_ONE), 21845);
    assert_eq!(fx_div(-FX_ONE, 3 * FX_ONE), -21845);
}

#[test]
fn multiplication_truncates_and_saturates() {
    assert_eq!(fx_mul(3, 3), 0);
    assert_eq!(fx_mul(FX_ONE / 2, FX_ONE / 2), FX_ONE / 4);
    assert_eq!(fx_mul(FX_MAX, FX_MAX), FX_MAX);
    assert_eq!(fx_mul(-FX_MAX, FX_MAX), -FX_MAX);
}

#[test]
fn square_root_is_exact_on_squares() {
    assert_eq!(fx_sqrt(4 * FX_ONE), 2 * FX_ONE);
    assert_eq!(fx_sqrt(81 * FX_ONE), 9 * FX_ONE);
    assert_eq!(fx_sqrt(0), 0);
}

#[test]
fn clamp_matches_bounds() {
    assert_eq!(fx_clamp(-5, 0, FX_ONE), 0);
    assert_eq!(fx_clamp(70000, 0, FX_ONE), FX_ONE);
    assert_eq!(fx_clamp(1234, 0, FX_ONE), 1234);
}

#[test]
fn color_packs_to_8_bit_pixels() {
    // (0.5, 0.25, 1.0) packs to the truncated 8-bit triple (127, 63, 255).
    let c = Color::new(FX_ONE / 2, FX_ONE / 4, FX_ONE);
    assert_eq!(c.to_u32(), 0x7F3FFF);
    // Channels outside [0, 1] are clamped at packing time.
    let hot = Color::new(3 * FX_ONE, -FX_ONE, FX_ONE / 4);
    assert_eq!(hot.to_u32(), 0xFF003F);
}

#[test]
fn color_roundtrip_is_within_one_8_bit_step() {
    // Pack (0.5, 0.25, 1.0) to 8 bits and normalize it back: every channel
    // returns within 1/255 (257 fixed-point units) of the original.
    let c = Color::new(FX_ONE / 2, FX_ONE / 4, FX_ONE);
    let packed = c.to_u32();
    let r8 = ((packed >> 16) & 0xFF) as u8;
    let g8 = ((packed >> 8) & 0xFF) as u8;
    let b8 = (packed & 0xFF) as u8;
    let back = Color::from_u8(r8, g8, b8);
    assert_eq!(back.r, 32639);
    assert_eq!(back.g, 16191);
    assert_eq!(back.b, 65536);
    assert!((c.r - back.r).abs() <= 257);
    assert!((c.g - back.g).abs() <= 257);
    assert!((c.b - back.b).abs() <= 257);
}

#[test]
fn color_algebra_is_componentwise() {
    let a = Color::new(FX_ONE, FX_ONE / 2, 0);
    let b = Color::new(FX_ONE / 2, FX_ONE / 2, FX_ONE);
    let sum = a.plus(&b);
    assert_eq!((sum.r, sum.g, sum.b), (3 * FX_ONE / 2, FX_ONE, FX_ONE));
    let prod = a.times(&b);
    assert_eq!((prod.r, prod.g, prod.b), (FX_ONE / 2, FX_ONE / 4, 0));
    let scaled = a.scale(2 * FX_ONE);
    assert_eq!((scaled.r, scaled.g, scaled.b), (2 * FX_ONE, FX_ONE, 0));
    let clamped = Color::new(2 * FX_ONE, -3, 70000).clamp();
    assert_eq!((clamped.r, clamped.g, clamped.b), (FX_ONE, 0, FX_ONE));
}

#[test]
fn texture_pixels_are_row_major() {
    let t = Texture::new(
        2,
        2,
        vec![(255, 0, 0), (0, 255, 0), (0, 0, 255), (255, 255, 255)],
    );
    assert_eq!(t.width(), 2);
    assert_eq!(t.height(), 2);
    assert_eq!(t.get_pixel(0, 0), (255, 0, 0));
    assert_eq!(t.get_pixel(1, 0), (0, 255, 0));
    assert_eq!(t.get_pixel(0, 1), (0, 0, 255));
    assert_eq!(t.get_pixel(1, 1), (255, 255, 255));
}

#[test]
fn texture_sampling_scales_and_clamps_uv() {
    let t = Texture::new(
        2,
        2,
        vec![(255, 0, 0), (0, 255, 0), (0, 0, 255), (255, 255, 255)],
    );
    // u = 0.75, v = 0.25 selects column 1, row 0.
    let c = t.sample(3 * FX_ONE / 4, FX_ONE / 4);
    assert_eq!((c.r, c.g, c.b), (0, FX_ONE, 0));
    // u = v = 1 clamps to the last texel instead of reading out of bounds.
    let edge = t.sample(FX_ONE, FX_ONE);
    assert_eq!((edge.r, edge.g, edge.b), (FX_ONE, FX_ONE, FX_ONE));
    // Negative coordinates clamp to the first texel.
    let low = t.sample(-FX_ONE, -FX_ONE);
    assert_eq!((low.r, low.g, low.b), (FX_ONE, 0, 0));
}

#[test]
fn sine_and_cosine_hit_the_cardinal_angles() {
    assert_eq!(sin_b(0), 0);
    assert_eq!(sin_b(TURN / 4), FX_ONE);
    assert_eq!(sin_b(TURN / 2), 0);
    assert_eq!(sin_b(3 * TURN / 4), -FX_ONE);
    assert_eq!(cos_b(0), FX_ONE);
    assert_eq!(cos_b(TURN / 4), 0);
}

#[test]
fn orbit_roundtrip_restores_the_eye() {
    let mut cam = Camera::new(
        Vec3::new(0, 0, 0),
        Vec3::new(0, FX_ONE, 0),
        0,
        0,
        3 * FX_ONE,
    );
    let home = cam.eye();
    cam.orbit(1234, 567);
    assert_eq!(cam.yaw, 1234);
    assert_eq!(cam.pitch, 567);
    let moved = cam.eye();
    assert_ne!(home, moved);
    cam.orbit(-1234, -567);
    assert_eq!(cam.yaw, 0);
    assert_eq!(cam.pitch, 0);
    assert_eq!(cam.eye(), home);
}

#[test]
fn orbit_wraps_around_a_revolution() {
    let mut cam = Camera::new(
        Vec3::new(0, 0, 0),
        Vec3::new(0, FX_ONE, 0),
        TURN - 1,
        0,
        FX_ONE,
    );
    cam.orbit(2, 0);
    assert_eq!(cam.yaw, 1);
    cam.orbit(-2, 0);
    assert_eq!(cam.yaw, TURN - 1);
}

#[test]
fn dolly_shrinks_the_radius_and_stops_at_the_center() {
    let mut cam = Camera::new(
        Vec3::new(0, 0, 0),
        Vec3::new(0, FX_ONE, 0),
        0,
        0,
        3 * FX_ONE,
    );
    cam.dolly(FX_ONE);
    assert_eq!(cam.radius, 2 * FX_ONE);
    cam.dolly(5 * FX_ONE);
    assert_eq!(cam.radius, 0);
    cam.dolly(-FX_ONE);
    assert_eq!(cam.radius, FX_ONE);
}

#[test]
fn initial_eye_sits_on_the_positive_z_axis() {
    let cam = Camera::new(
        Vec3::new(0, 0, 0),
        Vec3::new(0, FX_ONE, 0),
        0,
        0,
        3 * FX_ONE,
    );
    // Yaw 0, pitch 0 look down +Z: the eye is center + radius * (0, 0, 1).
    assert_eq!(cam.eye(), Vec3::new(0, 0, 3 * FX_ONE));
}
