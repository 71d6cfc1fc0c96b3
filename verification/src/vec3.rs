//! Three-component vectors over the fixed-point scalars of `crate::fixed`.

use vstd::prelude::*;
use crate::fixed::{
    fx_add, fx_add_s, fx_div, fx_div_s, fx_mul, fx_mul_s, fx_sqrt, fx_sqrt_s, fx_sub, fx_sub_s,
    fx_wf, tdiv, FX_ONE,
};

verus! {

/// A geometric position or direction; each component is a fixed-point scalar.
#[derive(Clone, Copy, Debug, PartialEq, Eq, Structural)]
pub struct Vec3 {
    pub x: i64,
    pub y: i64,
    pub z: i64,
}

/// Componentwise saturating sum.
pub open spec fn vadd_s(a: Vec3, b: Vec3) -> Vec3 {
    Vec3 {
        x: fx_add_s(a.x as int, b.x as int) as i64,
        y: fx_add_s(a.y as int, b.y as int) as i64,
        z: fx_add_s(a.z as int, b.z as int) as i64,
    }
}

/// Componentwise saturating difference.
pub open spec fn vsub_s(a: Vec3, b: Vec3) -> Vec3 {
    Vec3 {
        x: fx_sub_s(a.x as int, b.x as int) as i64,
        y: fx_sub_s(a.y as int, b.y as int) as i64,
        z: fx_sub_s(a.z as int, b.z as int) as i64,
    }
}

/// Componentwise saturating product with a scalar.
pub open spec fn vscale_s(a: Vec3, s: int) -> Vec3 {
    Vec3 {
        x: fx_mul_s(a.x as int, s) as i64,
        y: fx_mul_s(a.y as int, s) as i64,
        z: fx_mul_s(a.z as int, s) as i64,
    }
}

/// Saturating dot product, summed left to right.
pub open spec fn dot_s(a: Vec3, b: Vec3) -> int {
    fx_add_s(
        fx_add_s(fx_mul_s(a.x as int, b.x as int), fx_mul_s(a.y as int, b.y as int)),
        fx_mul_s(a.z as int, b.z as int),
    )
}

/// Saturating cross product.
pub open spec fn cross_s(a: Vec3, b: Vec3) -> Vec3 {
    Vec3 {
        x: fx_sub_s(fx_mul_s(a.y as int, b.z as int), fx_mul_s(a.z as int, b.y as int)) as i64,
        y: fx_sub_s(fx_mul_s(a.z as int, b.x as int), fx_mul_s(a.x as int, b.z as int)) as i64,
        z: fx_sub_s(fx_mul_s(a.x as int, b.y as int), fx_mul_s(a.y as int, b.x as int)) as i64,
    }
}

/// Euclidean length (square root of the self dot product).
pub open spec fn norm_s(a: Vec3) -> int {
    fx_sqrt_s(dot_s(a, a))
}

/// Unit vector with the direction of `a`; the zero vector (whose length is
/// zero) maps to itself rather than to an IEEE NaN.
pub open spec fn normalize_s(a: Vec3) -> Vec3 {
    let n = norm_s(a);
    if n == 0 {
        Vec3 { x: 0, y: 0, z: 0 }
    } else {
        Vec3 {
            x: fx_div_s(a.x as int, n) as i64,
            y: fx_div_s(a.y as int, n) as i64,
            z: fx_div_s(a.z as int, n) as i64,
        }
    }
}

/// Mirror reflection of direction `d` about normal `n`:
/// `d - n * (2 * dot(d, n))`.
pub open spec fn reflect_s(d: Vec3, n: Vec3) -> Vec3 {
    vsub_s(d, vscale_s(n, fx_add_s(dot_s(d, n), dot_s(d, n))))
}

/// A square never saturates below zero.
pub proof fn lemma_square_nonneg(a: int)
    ensures
        fx_mul_s(a, a) >= 0,
{
    assert(a * a >= 0) by (nonlinear_arith);
    assert(tdiv(a * a, FX_ONE as int) >= 0);
}

/// The dot product of a vector with itself is non-negative.
pub proof fn lemma_self_dot_nonneg(a: Vec3)
    ensures
        dot_s(a, a) >= 0,
{
    lemma_square_nonneg(a.x as int);
    lemma_square_nonneg(a.y as int);
    lemma_square_nonneg(a.z as int);
}

impl Vec3 {
    /// Every component is a well-formed scalar.
    pub open spec fn wf(self) -> bool {
        fx_wf(self.x) && fx_wf(self.y) && fx_wf(self.z)
    }

    pub fn new(x: i64, y: i64, z: i64) -> (r: Vec3)
        requires
            fx_wf(x),
            fx_wf(y),
            fx_wf(z),
        ensures
            r == (Vec3 { x, y, z }),
            r.wf(),
    {
        Vec3 { x, y, z }
    }

    /// The zero vector.
    pub fn zero() -> (r: Vec3)
        ensures
            r == (Vec3 { x: 0i64, y: 0i64, z: 0i64 }),
            r.wf(),
    {
        Vec3 { x: 0, y: 0, z: 0 }
    }

    pub fn plus(&self, o: &Vec3) -> (r: Vec3)
        requires
            self.wf(),
            o.wf(),
        ensures
            r == vadd_s(*self, *o),
            r.wf(),
    {
        Vec3 { x: fx_add(self.x, o.x), y: fx_add(self.y, o.y), z: fx_add(self.z, o.z) }
    }

    pub fn minus(&self, o: &Vec3) -> (r: Vec3)
        requires
            self.wf(),
            o.wf(),
        ensures
            r == vsub_s(*self, *o),
            r.wf(),
    {
        Vec3 { x: fx_sub(self.x, o.x), y: fx_sub(self.y, o.y), z: fx_sub(self.z, o.z) }
    }

    pub fn scale(&self, s: i64) -> (r: Vec3)
        requires
            self.wf(),
            fx_wf(s),
        ensures
            r == vscale_s(*self, s as int),
            r.wf(),
    {
        Vec3 { x: fx_mul(self.x, s), y: fx_mul(self.y, s), z: fx_mul(self.z, s) }
    }

    pub fn dot(&self, o: &Vec3) -> (r: i64)
        requires
            self.wf(),
            o.wf(),
        ensures
            r == dot_s(*self, *o),
            fx_wf(r),
    {
        fx_add(fx_add(fx_mul(self.x, o.x), fx_mul(self.y, o.y)), fx_mul(self.z, o.z))
    }

    pub fn cross(&self, o: &Vec3) -> (r: Vec3)
        requires
            self.wf(),
            o.wf(),
        ensures
            r == cross_s(*self, *o),
            r.wf(),
    {
        Vec3 {
            x: fx_sub(fx_mul(self.y, o.z), fx_mul(self.z, o.y)),
            y: fx_sub(fx_mul(self.z, o.x), fx_mul(self.x, o.z)),
            z: fx_sub(fx_mul(self.x, o.y), fx_mul(self.y, o.x)),
        }
    }

    pub fn norm(&self) -> (r: i64)
        requires
            self.wf(),
        ensures
            r == norm_s(*self),
            r >= 0,
            fx_wf(r),
    {
        proof {
            lemma_self_dot_nonneg(*self);
        }
        fx_sqrt(self.dot(self))
    }

    pub fn normalize(&self) -> (r: Vec3)
        requires
            self.wf(),
        ensures
            r == normalize_s(*self),
            r.wf(),
    {
        let n: i64 = self.norm();
        if n == 0 {
            Vec3 { x: 0, y: 0, z: 0 }
        } else {
            Vec3 { x: fx_div(self.x, n), y: fx_div(self.y, n), z: fx_div(self.z, n) }
        }
    }

    /// Mirror reflection of `self` (an incoming direction) about normal `n`.
    pub fn reflect(&self, n: &Vec3) -> (r: Vec3)
        requires
            self.wf(),
            n.wf(),
        ensures
            r == reflect_s(*self, *n),
            r.wf(),
    {
        let dn: i64 = self.dot(n);
        self.minus(&n.scale(fx_add(dn, dn)))
    }
}

} // verus!
