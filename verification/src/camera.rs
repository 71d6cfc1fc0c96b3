//! The orbiting camera.
//!
//! Orientation is held as spherical coordinates about the look-at center: a
//! yaw and pitch in binary angle units (`TURN` units make a full
//! revolution) and a radius. The eye position is derived from them on every
//! call rather than cached, so orbiting and dollying are exact integer
//! updates of the state — orbiting by an angle and then by its negation
//! restores the eye to the bit.

use vstd::prelude::*;
use vstd::arithmetic::div_mod::{
    lemma_div_by_multiple, lemma_div_is_ordered, lemma_fundamental_div_mod, lemma_mod_bound,
    lemma_mod_multiples_vanish, lemma_small_mod,
};
use crate::fixed::{fx_clamp_s, fx_mul, fx_mul_s, fx_sub, fx_sub_s, fx_wf, FX_MAX, FX_ONE};
use crate::vec3::{cross_s, normalize_s, vadd_s, vscale_s, vsub_s, Vec3};

verus! {

/// Binary angle units in one full revolution.
pub const TURN: i64 = 65536;

/// Binary angle units in half a revolution.
pub const HALF_TURN: i64 = 32768;

/// Binary angle units in a quarter revolution.
pub const QUARTER_TURN: i64 = 16384;

/// Sine of a half-revolution angle in `[0, HALF_TURN]`, scaled by `FX_ONE`,
/// by the rational approximation `16 y (1 - y) / (5 - 4 y (1 - y))` of
/// `sin(pi y)` for the turn fraction `y`.
pub open spec fn sin_half_s(x: int) -> int {
    let n = x * (HALF_TURN - x);
    (16 * n * (FX_ONE as int)) / (5 * (HALF_TURN as int) * (HALF_TURN as int) - 4 * n)
}

/// Sine of a binary angle in `[0, TURN)`, scaled by `FX_ONE`.
pub open spec fn sin_s(x: int) -> int {
    if x < HALF_TURN {
        sin_half_s(x)
    } else {
        -sin_half_s(x - HALF_TURN)
    }
}

/// Cosine of a binary angle in `[0, TURN)`, scaled by `FX_ONE`.
pub open spec fn cos_s(x: int) -> int {
    sin_s((x + QUARTER_TURN) % (TURN as int))
}

/// A binary angle reduced into `[0, TURN)`.
pub open spec fn wrap_s(a: int) -> int {
    a % (TURN as int)
}

/// The unit direction from the center toward the eye for a yaw and pitch.
pub open spec fn orbit_dir_s(yaw: int, pitch: int) -> Vec3 {
    Vec3 {
        x: fx_mul_s(cos_s(pitch), sin_s(yaw)) as i64,
        y: sin_s(pitch) as i64,
        z: fx_mul_s(cos_s(pitch), cos_s(yaw)) as i64,
    }
}

/// Sine over the first half revolution, where it is non-negative.
fn sin_half(x: i64) -> (r: i64)
    requires
        0 <= x <= HALF_TURN,
    ensures
        r == sin_half_s(x as int),
        0 <= r <= FX_ONE,
{
    proof {
        assert(0 <= (x as int) * (32768 - x) <= 32768 * 32768) by (nonlinear_arith)
            requires
                0 <= x <= 32768,
        ;
    }
    let n: u64 = (x as u64) * ((HALF_TURN - x) as u64);
    proof {
        assert(20 * (n as int) <= 5 * 32768 * 32768) by (nonlinear_arith)
            requires
                n == (x as int) * (32768 - x),
                0 <= x <= 32768,
        ;
    }
    let num: u64 = 16 * n * 65536;
    let den: u64 = 5368709120 - 4 * n;
    let r: u64 = num / den;
    proof {
        lemma_div_is_ordered(num as int, 65536 * (den as int), den as int);
        lemma_div_by_multiple(65536, den as int);
    }
    r as i64
}

/// Sine of a binary angle in `[0, TURN)`.
pub fn sin_b(x: i64) -> (r: i64)
    requires
        0 <= x < TURN,
    ensures
        r == sin_s(x as int),
        -FX_ONE <= r <= FX_ONE,
{
    if x < HALF_TURN {
        sin_half(x)
    } else {
        -sin_half(x - HALF_TURN)
    }
}

/// Cosine of a binary angle in `[0, TURN)`.
pub fn cos_b(x: i64) -> (r: i64)
    requires
        0 <= x < TURN,
    ensures
        r == cos_s(x as int),
        -FX_ONE <= r <= FX_ONE,
{
    let shifted: i64 = wrap(x + QUARTER_TURN);
    sin_b(shifted)
}

/// Reduce a binary angle that is at most one revolution out of range.
fn wrap(a: i64) -> (r: i64)
    requires
        -TURN <= a < 2 * TURN,
    ensures
        r == wrap_s(a as int),
        0 <= r < TURN,
{
    proof {
        lemma_mod_multiples_vanish(-1, a as int, 65536);
        lemma_mod_multiples_vanish(1, a as int, 65536);
        if 0 <= a < TURN {
            lemma_small_mod(a as nat, 65536);
        } else if a < 0 {
            lemma_small_mod((a + 65536) as nat, 65536);
        } else {
            lemma_small_mod((a - 65536) as nat, 65536);
        }
    }
    if a < 0 {
        a + TURN
    } else if a >= TURN {
        a - TURN
    } else {
        a
    }
}

/// An interactive camera orbiting a look-at center.
#[derive(Clone, Copy, Debug, PartialEq, Eq, Structural)]
pub struct Camera {
    pub center: Vec3,
    pub up: Vec3,
    pub yaw: i64,
    pub pitch: i64,
    pub radius: i64,
}

/// The camera state after orbiting by a yaw and pitch delta: both angles
/// advance and wrap around; center, up and radius are untouched.
pub open spec fn orbit_s(cam: Camera, delta_yaw: int, delta_pitch: int) -> Camera {
    Camera {
        center: cam.center,
        up: cam.up,
        yaw: wrap_s(cam.yaw + delta_yaw) as i64,
        pitch: wrap_s(cam.pitch + delta_pitch) as i64,
        radius: cam.radius,
    }
}

/// Where the camera eye sits: the center plus the orbit direction scaled by
/// the radius.
pub open spec fn eye_s(cam: Camera) -> Vec3 {
    vadd_s(cam.center, vscale_s(orbit_dir_s(cam.yaw as int, cam.pitch as int), cam.radius as int))
}

/// The world-space direction of a camera-space ray direction `v`:
/// `v.x * right + v.y * true_up + v.z * forward` over the orthonormal-style
/// basis derived from the view (forward toward the center, right from
/// crossing forward with up, true up closing the frame).
pub open spec fn base_change_s(cam: Camera, v: Vec3) -> Vec3 {
    let forward = normalize_s(vsub_s(cam.center, eye_s(cam)));
    let right = normalize_s(cross_s(forward, cam.up));
    let true_up = cross_s(right, forward);
    vadd_s(
        vadd_s(vscale_s(right, v.x as int), vscale_s(true_up, v.y as int)),
        vscale_s(forward, v.z as int),
    )
}

impl Camera {
    pub open spec fn wf(&self) -> bool {
        &&& self.center.wf()
        &&& self.up.wf()
        &&& 0 <= self.yaw < TURN
        &&& 0 <= self.pitch < TURN
        &&& 0 <= self.radius <= FX_MAX
    }

    pub fn new(center: Vec3, up: Vec3, yaw: i64, pitch: i64, radius: i64) -> (cam: Camera)
        requires
            center.wf(),
            up.wf(),
            0 <= yaw < TURN,
            0 <= pitch < TURN,
            0 <= radius <= FX_MAX,
        ensures
            cam == (Camera { center, up, yaw, pitch, radius }),
            cam.wf(),
    {
        Camera { center, up, yaw, pitch, radius }
    }

    /// The current eye position, derived from the spherical state.
    pub fn eye(&self) -> (r: Vec3)
        requires
            self.wf(),
        ensures
            r == eye_s(*self),
            r.wf(),
    {
        let cp: i64 = cos_b(self.pitch);
        let sp: i64 = sin_b(self.pitch);
        let cy: i64 = cos_b(self.yaw);
        let sy: i64 = sin_b(self.yaw);
        let dir: Vec3 = Vec3::new(fx_mul(cp, sy), sp, fx_mul(cp, cy));
        self.center.plus(&dir.scale(self.radius))
    }

    /// Rotate the eye about the center; angles wrap around a revolution, the
    /// distance from the center (the stored radius) is preserved exactly.
    /// No pitch clamp is imposed: orbiting through the pole flips the view,
    /// as in the original control scheme.
    pub fn orbit(&mut self, delta_yaw: i64, delta_pitch: i64)
        requires
            old(self).wf(),
            -TURN <= delta_yaw <= TURN,
            -TURN <= delta_pitch <= TURN,
        ensures
            *final(self) == orbit_s(*old(self), delta_yaw as int, delta_pitch as int),
            final(self).wf(),
    {
        proof {
            lemma_mod_bound(old(self).yaw + delta_yaw, 65536);
            lemma_mod_bound(old(self).pitch + delta_pitch, 65536);
        }
        self.yaw = wrap(self.yaw + delta_yaw);
        self.pitch = wrap(self.pitch + delta_pitch);
    }

    /// Move the eye along the view axis: the radius shrinks by `amount`
    /// (clamped at zero, so the eye never crosses the center).
    pub fn dolly(&mut self, amount: i64)
        requires
            old(self).wf(),
            fx_wf(amount),
        ensures
            final(self).radius == fx_clamp_s(
                fx_sub_s(old(self).radius as int, amount as int),
                0,
                FX_MAX as int,
            ),
            final(self).center == old(self).center,
            final(self).up == old(self).up,
            final(self).yaw == old(self).yaw,
            final(self).pitch == old(self).pitch,
            final(self).wf(),
    {
        let nr: i64 = fx_sub(self.radius, amount);
        self.radius = if nr < 0 {
            0
        } else {
            nr
        };
    }

    /// Transform a camera-space ray direction into world space using the
    /// basis derived from the current view; recomputed on every call, so a
    /// camera mutation is reflected immediately.
    pub fn base_change(&self, v: &Vec3) -> (r: Vec3)
        requires
            self.wf(),
            v.wf(),
        ensures
            r == base_change_s(*self, *v),
            r.wf(),
    {
        let eye: Vec3 = self.eye();
        let forward: Vec3 = self.center.minus(&eye).normalize();
        let right: Vec3 = forward.cross(&self.up).normalize();
        let true_up: Vec3 = right.cross(&forward);
        right.scale(v.x).plus(&true_up.scale(v.y)).plus(&forward.scale(v.z))
    }
}

/// Orbiting by some angles and then by their negations restores the camera
/// state, and with it the derived eye position, exactly.
pub proof fn lemma_orbit_roundtrip(cam: Camera, delta_yaw: i64, delta_pitch: i64)
    requires
        cam.wf(),
        -TURN <= delta_yaw <= TURN,
        -TURN <= delta_pitch <= TURN,
    ensures
        orbit_s(orbit_s(cam, delta_yaw as int, delta_pitch as int), -delta_yaw, -delta_pitch)
            == cam,
        eye_s(
            orbit_s(orbit_s(cam, delta_yaw as int, delta_pitch as int), -delta_yaw, -delta_pitch),
        ) == eye_s(cam),
{
    lemma_wrap_roundtrip(cam.yaw as int, delta_yaw as int);
    lemma_wrap_roundtrip(cam.pitch as int, delta_pitch as int);
}

/// Advancing an in-range angle and wrapping, then retreating and wrapping,
/// is the identity.
proof fn lemma_wrap_roundtrip(a: int, delta: int)
    requires
        0 <= a < TURN,
    ensures
        wrap_s(wrap_s(a + delta) - delta) == a,
{
    lemma_fundamental_div_mod(a + delta, 65536);
    lemma_mod_bound(a + delta, 65536);
    let q = (a + delta) / 65536;
    assert(wrap_s(a + delta) == a + delta - 65536 * q);
    lemma_mod_multiples_vanish(-q, a, 65536);
    lemma_small_mod(a as nat, 65536);
}

} // verus!
