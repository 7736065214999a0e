//! Fixed-point scalar arithmetic.
//!
//! A scalar is an `i64` counting millionths of the physical unit, so the
//! value `1_000_000` stands for `1.0`.  Multiplication and division rescale
//! with truncation toward zero; every operation saturates at the `i64`
//! range, so all operations are total and exactly specified.

use vstd::prelude::*;

verus! {

/// Fixed-point units per physical unit.
pub const SCALE: i64 = 1_000_000;

/// The scalar `1.0`.
pub const ONE: i64 = 1_000_000;

/// Clamp a mathematical integer into the `i64` range.
pub open spec fn sat(x: int) -> int {
    if x > i64::MAX as int {
        i64::MAX as int
    } else if x < i64::MIN as int {
        i64::MIN as int
    } else {
        x
    }
}

/// Division rounding toward zero, as the executable code computes it.
/// Meaningful only for `b != 0`.
pub open spec fn tdiv(a: int, b: int) -> int {
    if a == 0 {
        0
    } else if a > 0 && b > 0 {
        a / b
    } else if a < 0 && b < 0 {
        (a * -1) / (b * -1)
    } else if a < 0 {
        ((a * -1) / b) * -1
    } else {
        (a / (b * -1)) * -1
    }
}

/// Saturating sum of two scalars.
pub open spec fn spec_add(a: int, b: int) -> int {
    sat(a + b)
}

/// Saturating difference of two scalars.
pub open spec fn spec_sub(a: int, b: int) -> int {
    sat(a - b)
}

/// Saturating negation (the negation of `i64::MIN` saturates to `i64::MAX`).
pub open spec fn spec_neg(a: int) -> int {
    sat(-a)
}

/// Saturating absolute value.
pub open spec fn spec_abs(a: int) -> int {
    if a < 0 {
        sat(-a)
    } else {
        a
    }
}

/// Fixed-point product: `a * b` rescaled by `SCALE`, truncated, saturated.
pub open spec fn spec_mul(a: int, b: int) -> int {
    sat(tdiv(a * b, SCALE as int))
}

/// Fixed-point quotient: `a / b` rescaled by `SCALE`, truncated, saturated.
/// Meaningful only for `b != 0`.
pub open spec fn spec_div(a: int, b: int) -> int {
    sat(tdiv(a * SCALE, b))
}

/// Division of a scalar by a plain (unscaled) integer.
/// Meaningful only for `b != 0`.
pub open spec fn spec_divi(a: int, b: int) -> int {
    sat(tdiv(a, b))
}

/// Floor of the square root of a nonnegative integer.
pub open spec fn sqrt_floor(n: int) -> int
    decreases n,
{
    if n <= 0 {
        0
    } else {
        let p = sqrt_floor(n - 1);
        if (p + 1) * (p + 1) <= n {
            p + 1
        } else {
            p
        }
    }
}

/// `sqrt_floor` is the integer square root: squared it is at most `n`, and
/// the next square is beyond `n`.
pub proof fn lemma_sqrt_floor_bounds(n: int)
    requires
        n >= 0,
    ensures
        sqrt_floor(n) >= 0,
        sqrt_floor(n) * sqrt_floor(n) <= n,
        (sqrt_floor(n) + 1) * (sqrt_floor(n) + 1) > n,
    decreases n,
{
    if n > 0 {
        lemma_sqrt_floor_bounds(n - 1);
        let p = sqrt_floor(n - 1);
        if (p + 1) * (p + 1) <= n {
            assert((p + 2) * (p + 2) > n) by (nonlinear_arith)
                requires
                    p >= 0,
                    p * p <= n - 1,
                    (p + 1) * (p + 1) > n - 1,
            ;
        }
    }
}

/// Any integer `r` squeezed between consecutive squares around `n` is
/// exactly `sqrt_floor(n)`.
pub proof fn lemma_sqrt_floor_unique(n: int, r: int)
    requires
        n >= 0,
        r >= 0,
        r * r <= n,
        (r + 1) * (r + 1) > n,
    ensures
        r == sqrt_floor(n),
{
    lemma_sqrt_floor_bounds(n);
    let s = sqrt_floor(n);
    if r < s {
        assert((r + 1) * (r + 1) <= s * s) by (nonlinear_arith)
            requires
                0 <= r,
                r < s,
        ;
    }
    if r > s {
        assert((s + 1) * (s + 1) <= r * r) by (nonlinear_arith)
            requires
                0 <= s,
                s < r,
        ;
    }
}

/// The product of two `i64` values stays well inside the `i128` range.
pub proof fn lemma_i64_mul_bound(a: int, b: int)
    requires
        -0x8000_0000_0000_0000 <= a <= 0x7fff_ffff_ffff_ffff,
        -0x8000_0000_0000_0000 <= b <= 0x7fff_ffff_ffff_ffff,
    ensures
        -0x4000_0000_0000_0000_0000_0000_0000_0000 <= a * b
            <= 0x4000_0000_0000_0000_0000_0000_0000_0000,
{
    assert(-0x4000_0000_0000_0000_0000_0000_0000_0000 <= a * b
        <= 0x4000_0000_0000_0000_0000_0000_0000_0000) by (nonlinear_arith)
        requires
            -0x8000_0000_0000_0000 <= a <= 0x7fff_ffff_ffff_ffff,
            -0x8000_0000_0000_0000 <= b <= 0x7fff_ffff_ffff_ffff,
    ;
}

/// Saturating addition.
pub fn fx_add(a: i64, b: i64) -> (r: i64)
    ensures
        r == spec_add(a as int, b as int),
{
    match a.checked_add(b) {
        Some(v) => v,
        None => {
            if a > 0 {
                i64::MAX
            } else {
                i64::MIN
            }
        },
    }
}

/// Saturating subtraction.
pub fn fx_sub(a: i64, b: i64) -> (r: i64)
    ensures
        r == spec_sub(a as int, b as int),
{
    match a.checked_sub(b) {
        Some(v) => v,
        None => {
            if b < 0 {
                i64::MAX
            } else {
                i64::MIN
            }
        },
    }
}

/// Saturating negation.
pub fn fx_neg(a: i64) -> (r: i64)
    ensures
        r == spec_neg(a as int),
{
    if a == i64::MIN {
        i64::MAX
    } else {
        -a
    }
}

/// Saturating absolute value.
pub fn fx_abs(a: i64) -> (r: i64)
    ensures
        r == spec_abs(a as int),
{
    if a < 0 {
        fx_neg(a)
    } else {
        a
    }
}

/// Fixed-point multiplication.
pub fn fx_mul(a: i64, b: i64) -> (r: i64)
    ensures
        r == spec_mul(a as int, b as int),
{
    proof {
        lemma_i64_mul_bound(a as int, b as int);
    }
    let p: i128 = (a as i128) * (b as i128);
    proof {
        lemma_tdiv_magnitude(p as int, SCALE as int);
    }
    let q: i128 = match p.checked_div(SCALE as i128) {
        Some(v) => v,
        None => {
            proof {
                assert(false);
            }
            0
        },
    };
    sat_i128(q)
}

/// Fixed-point division; the divisor must be nonzero.
pub fn fx_div(a: i64, b: i64) -> (r: i64)
    requires
        b != 0,
    ensures
        r == spec_div(a as int, b as int),
{
    proof {
        lemma_i64_mul_bound(a as int, SCALE as int);
    }
    let p: i128 = (a as i128) * (SCALE as i128);
    proof {
        lemma_tdiv_magnitude(p as int, b as int);
    }
    let q: i128 = match p.checked_div(b as i128) {
        Some(v) => v,
        None => {
            proof {
                assert(false);
            }
            0
        },
    };
    sat_i128(q)
}

/// Division of a scalar by a plain integer; the divisor must be nonzero.
pub fn fx_divi(a: i64, b: i64) -> (r: i64)
    requires
        b != 0,
    ensures
        r == spec_divi(a as int, b as int),
{
    proof {
        lemma_tdiv_magnitude(a as int, b as int);
    }
    match a.checked_div(b) {
        Some(v) => v,
        None => {
            if a == i64::MIN && b == -1 {
                proof {
                    assert(0x8000_0000_0000_0000int / 1int == 0x8000_0000_0000_0000int);
                }
                i64::MAX
            } else {
                proof {
                    if b >= 1 {
                        assert(((a as int) * -1) / (b as int) >= 0) by (nonlinear_arith)
                            requires
                                (a as int) * -1 >= 0,
                                b as int >= 1,
                        ;
                    }
                    if b <= -2 {
                        assert(((a as int) * -1) / ((b as int) * -1) < 0x8000_0000_0000_0000)
                            by (nonlinear_arith)
                            requires
                                0 <= (a as int) * -1 <= 0x8000_0000_0000_0000,
                                (b as int) * -1 >= 2,
                        ;
                    }
                    assert(false);
                }
                0
            }
        },
    }
}

/// Clamp an `i128` into the `i64` range.
pub(crate) fn sat_i128(q: i128) -> (r: i64)
    ensures
        r == sat(q as int),
{
    if q > i64::MAX as i128 {
        i64::MAX
    } else if q < i64::MIN as i128 {
        i64::MIN
    } else {
        q as i64
    }
}

/// The magnitude of a truncating quotient never exceeds the magnitude of
/// the dividend.
pub proof fn lemma_tdiv_magnitude(a: int, b: int)
    requires
        b != 0,
    ensures
        spec_abs_int(tdiv(a, b)) <= spec_abs_int(a),
{
    let pa = if a < 0 { a * -1 } else { a };
    let pb = if b < 0 { b * -1 } else { b };
    assert(0 <= pa / pb <= pa) by (nonlinear_arith)
        requires
            pa >= 0,
            pb >= 1,
    ;
}

/// Unsaturated absolute value of a mathematical integer.
pub open spec fn spec_abs_int(a: int) -> int {
    if a < 0 {
        -a
    } else {
        a
    }
}

/// Integer square root of a `u128`, by binary search.
pub fn isqrt_u128(n: u128) -> (r: u128)
    ensures
        r as int == sqrt_floor(n as int),
{
    let mut lo: u128 = 0;
    let mut hi: u128 = 0x1_0000_0000_0000_0000;
    proof {
        assert(hi as int * hi as int > n as int) by (nonlinear_arith)
            requires
                hi as int == 0x1_0000_0000_0000_0000,
                (n as int) < 0x1_0000_0000_0000_0000 * 0x1_0000_0000_0000_0000,
        ;
    }
    while lo + 1 < hi
        invariant
            lo < hi,
            hi <= 0x1_0000_0000_0000_0000,
            lo as int * lo as int <= n as int,
            hi as int * hi as int > n as int,
        decreases hi - lo,
    {
        let mid: u128 = lo + (hi - lo) / 2;
        proof {
            assert(mid as int * mid as int <= 0xffff_ffff_ffff_ffff * 0xffff_ffff_ffff_ffff)
                by (nonlinear_arith)
                requires
                    mid as int <= 0xffff_ffff_ffff_ffff,
                    mid >= 0,
            ;
        }
        if mid * mid <= n {
            lo = mid;
        } else {
            hi = mid;
        }
    }
    proof {
        lemma_sqrt_floor_unique(n as int, lo as int);
    }
    lo
}

/// Square root of a nonnegative scalar, in fixed-point units: the result
/// approximates `sqrt(a / SCALE) * SCALE`.
pub open spec fn spec_sqrt(a: int) -> int {
    sat(sqrt_floor(a * SCALE))
}

/// Fixed-point square root of a nonnegative scalar.
pub fn fx_sqrt(a: i64) -> (r: i64)
    requires
        a >= 0,
    ensures
        r == spec_sqrt(a as int),
{
    proof {
        assert(a as int * SCALE as int <= 0x4000_0000_0000_0000_0000_0000_0000_0000)
            by (nonlinear_arith)
            requires
                0 <= a as int <= 0x7fff_ffff_ffff_ffff,
        ;
    }
    let wide: u128 = (a as u128) * (SCALE as u128);
    let root = isqrt_u128(wide);
    proof {
        lemma_sqrt_floor_bounds(wide as int);
    }
    if root > i64::MAX as u128 {
        i64::MAX
    } else {
        root as i64
    }
}

} // verus!
