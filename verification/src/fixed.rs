//! Scaled-integer scalar arithmetic.
//!
//! A scalar is an `i64` holding a real value times `FX_ONE` (so `FX_ONE`
//! itself stands for 1.0). Multiplication and division truncate toward zero,
//! and every operation saturates at `±FX_MAX`, the representable extreme that
//! also serves as the "infinite distance" sentinel of the renderer: dividing
//! by zero yields `±FX_MAX` with the sign of the numerator, so the slab
//! intersection test degenerates the same way an IEEE division by zero would.

use vstd::prelude::*;

verus! {

/// The fixed-point representation of 1.0.
pub const FX_ONE: i64 = 65536;

/// Largest representable magnitude; also the "no hit yet" distance sentinel.
pub const FX_MAX: i64 = 70368744177664;

/// A scalar is well formed when its magnitude is at most `FX_MAX`.
pub open spec fn fx_wf(a: i64) -> bool {
    -FX_MAX <= a && a <= FX_MAX
}

/// Clamp a mathematical integer into the representable range.
pub open spec fn sat(x: int) -> int {
    if x > FX_MAX {
        FX_MAX as int
    } else if x < -(FX_MAX as int) {
        -(FX_MAX as int)
    } else {
        x
    }
}

/// Division truncated toward zero, total (zero divisor gives zero here;
/// `fx_div_s` handles the zero divisor before calling this).
pub open spec fn tdiv(x: int, d: int) -> int {
    if d == 0 {
        0
    } else if x == 0 {
        0
    } else if x > 0 && d > 0 {
        x / d
    } else if x < 0 && d < 0 {
        (x * -1) / (d * -1)
    } else if x < 0 {
        ((x * -1) / d) * -1
    } else {
        (x / (d * -1)) * -1
    }
}

pub open spec fn fx_add_s(a: int, b: int) -> int {
    sat(a + b)
}

pub open spec fn fx_sub_s(a: int, b: int) -> int {
    sat(a - b)
}

pub open spec fn fx_mul_s(a: int, b: int) -> int {
    sat(tdiv(a * b, FX_ONE as int))
}

/// Quotient of two scalars; a zero divisor saturates with the numerator's
/// sign (a non-negative numerator gives `+FX_MAX`), mirroring how an IEEE
/// division by zero overflows to a signed infinity.
pub open spec fn fx_div_s(a: int, b: int) -> int {
    if b == 0 {
        if a >= 0 {
            FX_MAX as int
        } else {
            -(FX_MAX as int)
        }
    } else {
        sat(tdiv(a * (FX_ONE as int), b))
    }
}

/// Integer square root, the unique `r` with `r * r <= n < (r + 1) * (r + 1)`.
pub open spec fn isqrt(n: nat) -> nat {
    choose|r: nat| #[trigger] (r * r) <= n < (r + 1) * (r + 1)
}

/// Square root of a scalar: `isqrt(a * FX_ONE)` keeps the result scaled by
/// `FX_ONE` as well. Negative inputs map to zero.
pub open spec fn fx_sqrt_s(a: int) -> int {
    if a < 0 {
        0
    } else {
        isqrt((a * (FX_ONE as int)) as nat) as int
    }
}

/// `isqrt` really is the witness that satisfies its defining bounds.
pub proof fn lemma_isqrt_is(n: nat, r: nat)
    requires
        r * r <= n,
        n < (r + 1) * (r + 1),
    ensures
        isqrt(n) == r,
{
    assert(r * r <= n < (r + 1) * (r + 1));
    assert(exists|q: nat| #[trigger] (q * q) <= n < (q + 1) * (q + 1));
    let q = isqrt(n);
    assert(q * q <= n < (q + 1) * (q + 1));
    assert(q == r) by (nonlinear_arith)
        requires
            q * q <= n < (q + 1) * (q + 1),
            r * r <= n < (r + 1) * (r + 1),
    ;
}

/// Saturate a wide intermediate into a well-formed scalar.
fn sat_narrow(x: i128) -> (r: i64)
    ensures
        r == sat(x as int),
        fx_wf(r),
{
    if x > FX_MAX as i128 {
        FX_MAX
    } else if x < -(FX_MAX as i128) {
        -FX_MAX
    } else {
        x as i64
    }
}

/// Saturating fixed-point sum.
pub fn fx_add(a: i64, b: i64) -> (r: i64)
    requires
        fx_wf(a),
        fx_wf(b),
    ensures
        r == fx_add_s(a as int, b as int),
        fx_wf(r),
{
    sat_narrow(a as i128 + b as i128)
}

/// Saturating fixed-point difference.
pub fn fx_sub(a: i64, b: i64) -> (r: i64)
    requires
        fx_wf(a),
        fx_wf(b),
    ensures
        r == fx_sub_s(a as int, b as int),
        fx_wf(r),
{
    sat_narrow(a as i128 - b as i128)
}

/// Magnitude of a well-formed scalar.
fn fx_abs(a: i64) -> (r: u64)
    requires
        fx_wf(a),
    ensures
        r == if a >= 0 { a as int } else { -(a as int) },
{
    if a < 0 {
        (-a) as u64
    } else {
        a as u64
    }
}

/// Truncating product of magnitudes with reattached sign equals `tdiv`.
proof fn lemma_magnitude_div(x: int, mx: nat, d: nat, q: nat)
    requires
        d > 0,
        mx == if x >= 0 { x } else { -x },
        q == mx / d,
    ensures
        tdiv(x, d as int) == if x >= 0 { q as int } else { -(q as int) },
{
    if x > 0 {
        assert(tdiv(x, d as int) == x / (d as int));
    } else if x < 0 {
        assert(tdiv(x, d as int) == ((x * -1) / (d as int)) * -1);
        assert(x * -1 == mx);
    }
}

/// Saturating fixed-point product, truncated toward zero.
pub fn fx_mul(a: i64, b: i64) -> (r: i64)
    requires
        fx_wf(a),
        fx_wf(b),
    ensures
        r == fx_mul_s(a as int, b as int),
        fx_wf(r),
{
    let neg: bool = (a < 0) != (b < 0);
    let ma: u64 = fx_abs(a);
    let mb: u64 = fx_abs(b);
    proof {
        assert((ma as int) * (mb as int) <= 70368744177664int * 70368744177664int)
            by (nonlinear_arith)
            requires
                ma <= 70368744177664u64,
                mb <= 70368744177664u64,
        ;
    }
    let prod: u128 = (ma as u128) * (mb as u128);
    let q: u128 = prod / (FX_ONE as u128);
    proof {
        assert(prod == (a as int) * (b as int) || prod == -((a as int) * (b as int)))
            by (nonlinear_arith)
            requires
                ma == if a >= 0 { a as int } else { -(a as int) },
                mb == if b >= 0 { b as int } else { -(b as int) },
                prod == (ma as int) * (mb as int),
        ;
        if (a as int) * (b as int) >= 0 {
            assert((a as int) * (b as int) == prod as int);
            lemma_magnitude_div((a as int) * (b as int), prod as nat, FX_ONE as nat, q as nat);
        } else {
            assert((a as int) * (b as int) == -(prod as int));
            lemma_magnitude_div((a as int) * (b as int), prod as nat, FX_ONE as nat, q as nat);
        }
        assert((a as int) * (b as int) >= 0 ==> !neg || prod == 0) by (nonlinear_arith)
            requires
                ma == if a >= 0 { a as int } else { -(a as int) },
                mb == if b >= 0 { b as int } else { -(b as int) },
                prod == (ma as int) * (mb as int),
                neg == ((a < 0) != (b < 0)),
        ;
        assert((a as int) * (b as int) < 0 ==> neg) by (nonlinear_arith)
            requires
                ma == if a >= 0 { a as int } else { -(a as int) },
                mb == if b >= 0 { b as int } else { -(b as int) },
                prod == (ma as int) * (mb as int),
                neg == ((a < 0) != (b < 0)),
        ;
    }
    if neg {
        if q > FX_MAX as u128 {
            -FX_MAX
        } else {
            -(q as i64)
        }
    } else {
        if q > FX_MAX as u128 {
            FX_MAX
        } else {
            q as i64
        }
    }
}

/// Saturating fixed-point quotient; a zero divisor saturates with the
/// numerator's sign, standing in for the signed infinity IEEE would produce.
pub fn fx_div(a: i64, b: i64) -> (r: i64)
    requires
        fx_wf(a),
        fx_wf(b),
    ensures
        r == fx_div_s(a as int, b as int),
        fx_wf(r),
{
    if b == 0 {
        if a >= 0 {
            FX_MAX
        } else {
            -FX_MAX
        }
    } else {
        let neg: bool = (a < 0) != (b < 0);
        let ma: u64 = fx_abs(a);
        let mb: u64 = fx_abs(b);
        let num: u128 = (ma as u128) * (FX_ONE as u128);
        let q: u128 = num / (mb as u128);
        proof {
            let x = (a as int) * (FX_ONE as int);
            assert(num == if x >= 0 { x } else { -x }) by (nonlinear_arith)
                requires
                    ma == if a >= 0 { a as int } else { -(a as int) },
                    num == (ma as int) * (FX_ONE as int),
                    x == (a as int) * (FX_ONE as int),
                    FX_ONE == 65536,
            ;
            lemma_quotient_of_magnitudes(x, num as nat, b as int, mb as nat, q as nat);
            assert(x >= 0 <==> a >= 0) by (nonlinear_arith)
                requires
                    x == (a as int) * (FX_ONE as int),
                    FX_ONE == 65536,
            ;
        }
        if neg {
            if q > FX_MAX as u128 {
                -FX_MAX
            } else {
                -(q as i64)
            }
        } else {
            if q > FX_MAX as u128 {
                FX_MAX
            } else {
                q as i64
            }
        }
    }
}

/// Dividing magnitudes and reattaching the sign computes `tdiv`.
proof fn lemma_quotient_of_magnitudes(x: int, mx: nat, d: int, md: nat, q: nat)
    requires
        d != 0,
        mx == if x >= 0 { x } else { -x },
        md == if d >= 0 { d } else { -d },
        q == mx / md,
    ensures
        tdiv(x, d) == if (x < 0) != (d < 0) { -(q as int) } else { q as int },
{
    if x == 0 {
    } else if x > 0 && d > 0 {
    } else if x < 0 && d < 0 {
        assert(x * -1 == mx);
        assert(d * -1 == md);
    } else if x < 0 {
        assert(x * -1 == mx);
    } else {
        assert(d * -1 == md);
    }
}

/// Square root of a non-negative scalar, result scaled like the input.
pub fn fx_sqrt(a: i64) -> (r: i64)
    requires
        0 <= a,
        fx_wf(a),
    ensures
        r == fx_sqrt_s(a as int),
        0 <= r <= 2147483648,
        fx_wf(r),
{
    let n: u64 = (a as u64) * (FX_ONE as u64);
    let mut lo: u64 = 0;
    let mut hi: u64 = 4294967296;
    proof {
        assert(n < 4294967296u64 * 4294967296u64) by (nonlinear_arith)
            requires
                n <= 70368744177664u64 * 65536u64,
        ;
    }
    while lo + 1 < hi
        invariant
            (lo as int) * (lo as int) <= n,
            n < (hi as int) * (hi as int),
            lo < hi <= 4294967296,
        decreases hi - lo,
    {
        let mid: u64 = lo + (hi - lo) / 2;
        proof {
            assert(lo < mid < hi);
            assert((mid as int) * (mid as int) < 18446744073709551616int) by (nonlinear_arith)
                requires
                    mid < 4294967296u64,
            ;
        }
        if mid * mid <= n {
            lo = mid;
        } else {
            hi = mid;
        }
    }
    proof {
        assert(hi == lo + 1);
        lemma_isqrt_is(n as nat, lo as nat);
        assert(lo <= 2147483648) by (nonlinear_arith)
            requires
                (lo as int) * (lo as int) <= n,
                n <= 70368744177664u64 * 65536u64,
        ;
    }
    lo as i64
}

/// Clamp a scalar into `[lo, hi]`.
pub open spec fn fx_clamp_s(a: int, lo: int, hi: int) -> int {
    if a < lo {
        lo
    } else if a > hi {
        hi
    } else {
        a
    }
}

/// Clamp a scalar into `[lo, hi]`.
pub fn fx_clamp(a: i64, lo: i64, hi: i64) -> (r: i64)
    requires
        lo <= hi,
    ensures
        r == fx_clamp_s(a as int, lo as int, hi as int),
{
    if a < lo {
        lo
    } else if a > hi {
        hi
    } else {
        a
    }
}

} // verus!
