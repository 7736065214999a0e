//! Fixed-point trigonometry.
//!
//! Sine and cosine reduce their argument into a quarter period and evaluate
//! a truncated Taylor polynomial; the arc functions go through the
//! arctangent series with the usual argument reductions.  Each executable
//! function returns exactly the value of its specification twin, which
//! spells out the same polynomial over the fixed-point operations.

use vstd::prelude::*;

use crate::fx::{
    fx_add, fx_div, fx_divi, fx_mul, fx_neg, fx_sqrt, fx_sub, spec_add, spec_div, spec_divi,
    spec_mul, spec_neg, spec_sqrt, spec_sub, ONE,
};

verus! {

/// Half turn, in fixed-point radians.
pub const PI: i64 = 3_141_593;

/// Full turn, in fixed-point radians.
pub const TWO_PI: i64 = 6_283_185;

/// Quarter turn, in fixed-point radians.
pub const HALF_PI: i64 = 1_570_796;

/// Eighth of a turn, in fixed-point radians.
pub const QUARTER_PI: i64 = 785_398;

/// Tangent of an eighth of a half turn, the split point of the
/// arctangent reduction.
pub const TAN_PI_8: i64 = 414_214;

/// Argument wrapped into `(-PI, PI]`.
pub open spec fn spec_wrap_pi(x: int) -> int {
    let r = x % (TWO_PI as int);
    if r > PI as int {
        r - TWO_PI as int
    } else {
        r
    }
}

/// Taylor polynomial for sine on the quarter period.
pub open spec fn spec_sin_poly(q: int) -> int {
    let q2 = spec_mul(q, q);
    let s4 = spec_sub(ONE as int, spec_divi(q2, 72));
    let s3 = spec_sub(ONE as int, spec_divi(spec_mul(q2, s4), 42));
    let s2 = spec_sub(ONE as int, spec_divi(spec_mul(q2, s3), 20));
    let s1 = spec_sub(ONE as int, spec_divi(spec_mul(q2, s2), 6));
    spec_mul(q, s1)
}

/// Taylor polynomial for cosine on the quarter period.
pub open spec fn spec_cos_poly(q: int) -> int {
    let q2 = spec_mul(q, q);
    let s5 = spec_sub(ONE as int, spec_divi(q2, 90));
    let s4 = spec_sub(ONE as int, spec_divi(spec_mul(q2, s5), 56));
    let s3 = spec_sub(ONE as int, spec_divi(spec_mul(q2, s4), 30));
    let s2 = spec_sub(ONE as int, spec_divi(spec_mul(q2, s3), 12));
    spec_sub(ONE as int, spec_divi(spec_mul(q2, s2), 2))
}

/// Sine of a fixed-point angle in radians.
pub open spec fn spec_sin(x: int) -> int {
    let r = spec_wrap_pi(x);
    let q = if r > HALF_PI as int {
        PI as int - r
    } else if r < -(HALF_PI as int) {
        -(PI as int) - r
    } else {
        r
    };
    spec_sin_poly(q)
}

/// Cosine of a fixed-point angle in radians.
pub open spec fn spec_cos(x: int) -> int {
    let r0 = x % (TWO_PI as int);
    let r = if r0 > PI as int {
        TWO_PI as int - r0
    } else {
        r0
    };
    if r > HALF_PI as int {
        spec_neg(spec_cos_poly(PI as int - r))
    } else {
        spec_cos_poly(r)
    }
}

/// Sine of an angle in fixed-point radians.
pub fn fx_sin(x: i64) -> (r: i64)
    ensures
        r == spec_sin(x as int),
{
    proof {
        lemma_mod_two_pi(x as int);
    }
    let r0: i64 = match x.checked_rem_euclid(TWO_PI) {
        Some(v) => v,
        None => {
            proof {
                assert(false);
            }
            0
        },
    };
    let w: i64 = if r0 > PI {
        r0 - TWO_PI
    } else {
        r0
    };
    let q: i64 = if w > HALF_PI {
        PI - w
    } else if w < -HALF_PI {
        -PI - w
    } else {
        w
    };
    fx_sin_poly(q)
}

/// Cosine of an angle in fixed-point radians.
pub fn fx_cos(x: i64) -> (r: i64)
    ensures
        r == spec_cos(x as int),
{
    proof {
        lemma_mod_two_pi(x as int);
    }
    let r0: i64 = match x.checked_rem_euclid(TWO_PI) {
        Some(v) => v,
        None => {
            proof {
                assert(false);
            }
            0
        },
    };
    let w: i64 = if r0 > PI {
        TWO_PI - r0
    } else {
        r0
    };
    if w > HALF_PI {
        fx_neg(fx_cos_poly(PI - w))
    } else {
        fx_cos_poly(w)
    }
}

/// Remainder by the full turn lies inside the turn.
proof fn lemma_mod_two_pi(x: int)
    ensures
        0 <= x % (TWO_PI as int) < TWO_PI as int,
{
    assert(0 <= x % (TWO_PI as int) < TWO_PI as int) by (nonlinear_arith);
}

fn fx_sin_poly(q: i64) -> (r: i64)
    ensures
        r == spec_sin_poly(q as int),
{
    let q2 = fx_mul(q, q);
    let s4 = fx_sub(ONE, fx_divi(q2, 72));
    let s3 = fx_sub(ONE, fx_divi(fx_mul(q2, s4), 42));
    let s2 = fx_sub(ONE, fx_divi(fx_mul(q2, s3), 20));
    let s1 = fx_sub(ONE, fx_divi(fx_mul(q2, s2), 6));
    fx_mul(q, s1)
}

fn fx_cos_poly(q: i64) -> (r: i64)
    ensures
        r == spec_cos_poly(q as int),
{
    let q2 = fx_mul(q, q);
    let s5 = fx_sub(ONE, fx_divi(q2, 90));
    let s4 = fx_sub(ONE, fx_divi(fx_mul(q2, s5), 56));
    let s3 = fx_sub(ONE, fx_divi(fx_mul(q2, s4), 30));
    let s2 = fx_sub(ONE, fx_divi(fx_mul(q2, s3), 12));
    fx_sub(ONE, fx_divi(fx_mul(q2, s2), 2))
}

/// Arctangent series on the innermost reduced range.
pub open spec fn spec_atan_poly(z: int) -> int {
    let z2 = spec_mul(z, z);
    let z3 = spec_mul(z2, z);
    let z5 = spec_mul(z3, z2);
    let z7 = spec_mul(z5, z2);
    let z9 = spec_mul(z7, z2);
    let z11 = spec_mul(z9, z2);
    let r1 = spec_sub(z, spec_divi(z3, 3));
    let r2 = spec_add(r1, spec_divi(z5, 5));
    let r3 = spec_sub(r2, spec_divi(z7, 7));
    let r4 = spec_add(r3, spec_divi(z9, 9));
    spec_sub(r4, spec_divi(z11, 11))
}

/// Arctangent for arguments in `[0, ONE]`.
pub open spec fn spec_atan_le1(z: int) -> int {
    if z > TAN_PI_8 as int {
        spec_add(
            QUARTER_PI as int,
            spec_atan_poly(spec_div(spec_sub(z, ONE as int), spec_add(z, ONE as int))),
        )
    } else {
        spec_atan_poly(z)
    }
}

/// Arctangent for nonnegative arguments.
pub open spec fn spec_atan_pos(z: int) -> int {
    if z > ONE as int {
        spec_sub(HALF_PI as int, spec_atan_le1(spec_div(ONE as int, z)))
    } else {
        spec_atan_le1(z)
    }
}

/// Arctangent of a fixed-point ratio.
pub open spec fn spec_atan(z: int) -> int {
    if z < 0 {
        spec_neg(spec_atan_pos(spec_neg(z)))
    } else {
        spec_atan_pos(z)
    }
}

fn fx_atan_poly(z: i64) -> (r: i64)
    ensures
        r == spec_atan_poly(z as int),
{
    let z2 = fx_mul(z, z);
    let z3 = fx_mul(z2, z);
    let z5 = fx_mul(z3, z2);
    let z7 = fx_mul(z5, z2);
    let z9 = fx_mul(z7, z2);
    let z11 = fx_mul(z9, z2);
    let r1 = fx_sub(z, fx_divi(z3, 3));
    let r2 = fx_add(r1, fx_divi(z5, 5));
    let r3 = fx_sub(r2, fx_divi(z7, 7));
    let r4 = fx_add(r3, fx_divi(z9, 9));
    fx_sub(r4, fx_divi(z11, 11))
}

fn fx_atan_le1(z: i64) -> (r: i64)
    requires
        0 <= z <= ONE,
    ensures
        r == spec_atan_le1(z as int),
{
    if z > TAN_PI_8 {
        fx_add(QUARTER_PI, fx_atan_poly(fx_div(fx_sub(z, ONE), fx_add(z, ONE))))
    } else {
        fx_atan_poly(z)
    }
}

fn fx_atan_pos(z: i64) -> (r: i64)
    requires
        z >= 0,
    ensures
        r == spec_atan_pos(z as int),
{
    if z > ONE {
        let inv = fx_div(ONE, z);
        proof {
            lemma_div_one_small(z as int);
        }
        fx_sub(HALF_PI, fx_atan_le1(inv))
    } else {
        fx_atan_le1(z)
    }
}

/// The reciprocal of a scalar beyond one lies inside `[0, ONE]`.
proof fn lemma_div_one_small(z: int)
    requires
        z > ONE as int,
    ensures
        0 <= spec_div(ONE as int, z) <= ONE as int,
{
    assert(0 <= (1_000_000_000_000int) / z <= ONE as int) by (nonlinear_arith)
        requires
            z > ONE as int,
    ;
}

/// Arctangent of a fixed-point ratio.
pub fn fx_atan(z: i64) -> (r: i64)
    ensures
        r == spec_atan(z as int),
{
    if z < 0 {
        fx_neg(fx_atan_pos(fx_neg(z)))
    } else {
        fx_atan_pos(z)
    }
}

/// Quadrant-aware arctangent of `y / x`.
pub open spec fn spec_atan2(y: int, x: int) -> int {
    if x > 0 {
        spec_atan(spec_div(y, x))
    } else if x < 0 {
        if y >= 0 {
            spec_add(spec_atan(spec_div(y, x)), PI as int)
        } else {
            spec_sub(spec_atan(spec_div(y, x)), PI as int)
        }
    } else {
        if y > 0 {
            HALF_PI as int
        } else if y < 0 {
            -(HALF_PI as int)
        } else {
            0
        }
    }
}

/// Quadrant-aware arctangent of `y / x`.
pub fn fx_atan2(y: i64, x: i64) -> (r: i64)
    ensures
        r == spec_atan2(y as int, x as int),
{
    if x > 0 {
        fx_atan(fx_div(y, x))
    } else if x < 0 {
        if y >= 0 {
            fx_add(fx_atan(fx_div(y, x)), PI)
        } else {
            fx_sub(fx_atan(fx_div(y, x)), PI)
        }
    } else {
        if y > 0 {
            HALF_PI
        } else if y < 0 {
            -HALF_PI
        } else {
            0
        }
    }
}

/// Argument clamped into `[-ONE, ONE]`.
pub open spec fn spec_clamp_one(t: int) -> int {
    if t > ONE as int {
        ONE as int
    } else if t < -(ONE as int) {
        -(ONE as int)
    } else {
        t
    }
}

/// Arcsine, the argument clamped into `[-ONE, ONE]`.
pub open spec fn spec_asin(t: int) -> int {
    let tc = spec_clamp_one(t);
    let root = spec_sqrt(spec_sub(ONE as int, spec_mul(tc, tc)));
    spec_atan2(tc, root)
}

/// Arccosine, the argument clamped into `[-ONE, ONE]`.
pub open spec fn spec_acos(t: int) -> int {
    spec_sub(HALF_PI as int, spec_asin(t))
}

/// The square of a clamped scalar stays inside `[0, ONE]`.
proof fn lemma_square_clamped(tc: int)
    requires
        -(ONE as int) <= tc <= ONE as int,
    ensures
        0 <= spec_mul(tc, tc) <= ONE as int,
{
    assert(0 <= tc * tc <= 1_000_000_000_000int) by (nonlinear_arith)
        requires
            -(ONE as int) <= tc <= ONE as int,
    ;
    assert(0 <= (tc * tc) / 1_000_000int <= ONE as int) by (nonlinear_arith)
        requires
            0 <= tc * tc <= 1_000_000_000_000int,
    ;
}

/// Arcsine, the argument clamped into `[-ONE, ONE]`.
pub fn fx_asin(t: i64) -> (r: i64)
    ensures
        r == spec_asin(t as int),
{
    let tc: i64 = if t > ONE {
        ONE
    } else if t < -ONE {
        -ONE
    } else {
        t
    };
    proof {
        lemma_square_clamped(tc as int);
    }
    let root = fx_sqrt(fx_sub(ONE, fx_mul(tc, tc)));
    fx_atan2(tc, root)
}

/// Arccosine, the argument clamped into `[-ONE, ONE]`.
pub fn fx_acos(t: i64) -> (r: i64)
    ensures
        r == spec_acos(t as int),
{
    fx_sub(HALF_PI, fx_asin(t))
}

} // verus!
