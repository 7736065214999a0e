//! Quaternions over fixed-point scalars, used to represent orientation.
//!
//! A quaternion meaningfully represents a rotation only at unit norm; the
//! operations do not renormalize on their own, callers renormalize where
//! drift matters.

use vstd::prelude::*;

use crate::fx::{
    fx_add, fx_div, fx_divi, fx_mul, fx_neg, fx_sub, lemma_sqrt_floor_bounds,
    lemma_sqrt_floor_unique, isqrt_u128, sat, spec_add, spec_div, spec_divi, spec_mul, spec_neg,
    spec_sub, sqrt_floor, ONE,
};
use crate::trig::{fx_asin, fx_atan2, fx_cos, fx_sin, spec_asin, spec_atan2, spec_cos, spec_sin};
use crate::vec3::{square_u128, Vec3};

verus! {

/// A quaternion: a scalar part `w` and an imaginary vector part.
#[derive(Clone, Copy, PartialEq, Eq, Structural, Debug)]
pub struct Quaternion {
    pub w: i64,
    pub x: i64,
    pub y: i64,
    pub z: i64,
}

/// The identity rotation.
pub open spec fn spec_qident() -> Quaternion {
    Quaternion { w: ONE, x: 0i64, y: 0i64, z: 0i64 }
}

/// Conjugate: the vector part negated.
pub open spec fn spec_qconj(q: Quaternion) -> Quaternion {
    Quaternion {
        w: q.w,
        x: spec_neg(q.x as int) as i64,
        y: spec_neg(q.y as int) as i64,
        z: spec_neg(q.z as int) as i64,
    }
}

/// Hamilton product, with the exact operation order of the executable
/// code.
pub open spec fn spec_qmul(a: Quaternion, b: Quaternion) -> Quaternion {
    Quaternion {
        w: spec_sub(
            spec_sub(
                spec_sub(
                    spec_mul(a.w as int, b.w as int),
                    spec_mul(a.x as int, b.x as int),
                ),
                spec_mul(a.y as int, b.y as int),
            ),
            spec_mul(a.z as int, b.z as int),
        ) as i64,
        x: spec_sub(
            spec_add(
                spec_add(
                    spec_mul(a.w as int, b.x as int),
                    spec_mul(a.x as int, b.w as int),
                ),
                spec_mul(a.y as int, b.z as int),
            ),
            spec_mul(a.z as int, b.y as int),
        ) as i64,
        y: spec_add(
            spec_add(
                spec_sub(
                    spec_mul(a.w as int, b.y as int),
                    spec_mul(a.x as int, b.z as int),
                ),
                spec_mul(a.y as int, b.w as int),
            ),
            spec_mul(a.z as int, b.x as int),
        ) as i64,
        z: spec_add(
            spec_sub(
                spec_add(
                    spec_mul(a.w as int, b.z as int),
                    spec_mul(a.x as int, b.y as int),
                ),
                spec_mul(a.y as int, b.x as int),
            ),
            spec_mul(a.z as int, b.w as int),
        ) as i64,
    }
}

/// Exact sum of the four squared components.
pub open spec fn spec_qnorm_sq(q: Quaternion) -> int {
    q.w as int * q.w as int + q.x as int * q.x as int + q.y as int * q.y as int + q.z as int
        * q.z as int
}

/// Euclidean norm of the quaternion.
pub open spec fn spec_qnorm(q: Quaternion) -> int {
    sat(sqrt_floor(spec_qnorm_sq(q)))
}

/// The quaternion scaled to unit norm; meaningful only when the norm is
/// positive.
pub open spec fn spec_qnormalize(q: Quaternion) -> Quaternion {
    let n = spec_qnorm(q);
    Quaternion {
        w: spec_div(q.w as int, n) as i64,
        x: spec_div(q.x as int, n) as i64,
        y: spec_div(q.y as int, n) as i64,
        z: spec_div(q.z as int, n) as i64,
    }
}

/// A vector rotated by the quaternion: the imaginary part of
/// `q * (0, v) * conj(q)`.
pub open spec fn spec_qrotate(q: Quaternion, v: Vec3) -> Vec3 {
    let p = spec_qmul(
        spec_qmul(q, Quaternion { w: 0i64, x: v.x, y: v.y, z: v.z }),
        spec_qconj(q),
    );
    Vec3 { x: p.x, y: p.y, z: p.z }
}

/// The blend of the identity and the quaternion by fraction `a`, before
/// normalization.
pub open spec fn spec_qfrac_raw(q: Quaternion, a: int) -> Quaternion {
    Quaternion {
        w: spec_add(spec_sub(ONE as int, a), spec_mul(a, q.w as int)) as i64,
        x: spec_mul(q.x as int, a) as i64,
        y: spec_mul(q.y as int, a) as i64,
        z: spec_mul(q.z as int, a) as i64,
    }
}

/// The product with a pure vector quaternion, the scalar part replaced by
/// its complement, before normalization.
pub open spec fn spec_qbetween_raw(q: Quaternion, v: Vec3) -> Quaternion {
    let p = spec_qmul(q, Quaternion { w: 0i64, x: v.x, y: v.y, z: v.z });
    Quaternion { w: spec_sub(ONE as int, p.w as int) as i64, x: p.x, y: p.y, z: p.z }
}

/// The rotation of `angle` about `axis`; the axis is assumed to be of
/// unit length.
pub open spec fn spec_qaxis_angle(axis: Vec3, angle: int) -> Quaternion {
    let half = spec_divi(angle, 2);
    let sa = spec_sin(half);
    Quaternion {
        w: spec_cos(half) as i64,
        x: spec_mul(axis.x as int, sa) as i64,
        y: spec_mul(axis.y as int, sa) as i64,
        z: spec_mul(axis.z as int, sa) as i64,
    }
}

/// The quaternion for roll, pitch and yaw angles.
pub open spec fn spec_qfrom_euler(e: Vec3) -> Quaternion {
    let cr = spec_cos(spec_divi(e.x as int, 2));
    let cp = spec_cos(spec_divi(e.y as int, 2));
    let cy = spec_cos(spec_divi(e.z as int, 2));
    let sr = spec_sin(spec_divi(e.x as int, 2));
    let sp = spec_sin(spec_divi(e.y as int, 2));
    let sy = spec_sin(spec_divi(e.z as int, 2));
    Quaternion {
        w: spec_add(spec_mul(spec_mul(cr, cp), cy), spec_mul(spec_mul(sr, sp), sy)) as i64,
        x: spec_sub(spec_mul(spec_mul(sr, cp), cy), spec_mul(spec_mul(cr, sp), sy)) as i64,
        y: spec_add(spec_mul(spec_mul(cr, sp), cy), spec_mul(spec_mul(sr, cp), sy)) as i64,
        z: spec_sub(spec_mul(spec_mul(cr, cp), sy), spec_mul(spec_mul(sr, sp), cy)) as i64,
    }
}

/// Roll, pitch and yaw of the quaternion.  Near gimbal lock the
/// conversion loses precision; it is only approximately inverse to
/// `spec_qfrom_euler`.
pub open spec fn spec_qto_euler(q: Quaternion) -> Vec3 {
    let two = 2 * ONE as int;
    let w = q.w as int;
    let x = q.x as int;
    let y = q.y as int;
    let z = q.z as int;
    Vec3 {
        x: spec_mul(
            two,
            spec_atan2(
                spec_add(spec_mul(w, x), spec_mul(y, z)),
                spec_sub(ONE as int, spec_mul(two, spec_add(spec_mul(x, x), spec_mul(y, y)))),
            ),
        ) as i64,
        y: spec_asin(spec_mul(two, spec_sub(spec_mul(w, y), spec_mul(z, x)))) as i64,
        z: spec_mul(
            two,
            spec_atan2(
                spec_add(spec_mul(w, z), spec_mul(x, y)),
                spec_sub(ONE as int, spec_mul(two, spec_add(spec_mul(y, y), spec_mul(z, z)))),
            ),
        ) as i64,
    }
}

impl Quaternion {
    /// Build a quaternion from its components.
    pub fn new(w: i64, x: i64, y: i64, z: i64) -> (r: Quaternion)
        ensures
            r == (Quaternion { w, x, y, z }),
    {
        Quaternion { w, x, y, z }
    }

    /// The conjugate.
    pub fn conj(self) -> (r: Quaternion)
        ensures
            r == spec_qconj(self),
    {
        Quaternion { w: self.w, x: fx_neg(self.x), y: fx_neg(self.y), z: fx_neg(self.z) }
    }

    /// Hamilton product.
    pub fn mul(self, other: Quaternion) -> (r: Quaternion)
        ensures
            r == spec_qmul(self, other),
    {
        let w = fx_sub(
            fx_sub(
                fx_sub(fx_mul(self.w, other.w), fx_mul(self.x, other.x)),
                fx_mul(self.y, other.y),
            ),
            fx_mul(self.z, other.z),
        );
        let x = fx_sub(
            fx_add(
                fx_add(fx_mul(self.w, other.x), fx_mul(self.x, other.w)),
                fx_mul(self.y, other.z),
            ),
            fx_mul(self.z, other.y),
        );
        let y = fx_add(
            fx_add(
                fx_sub(fx_mul(self.w, other.y), fx_mul(self.x, other.z)),
                fx_mul(self.y, other.w),
            ),
            fx_mul(self.z, other.x),
        );
        let z = fx_add(
            fx_sub(
                fx_add(fx_mul(self.w, other.z), fx_mul(self.x, other.y)),
                fx_mul(self.y, other.x),
            ),
            fx_mul(self.z, other.w),
        );
        Quaternion { w, x, y, z }
    }

    /// Euclidean norm.
    pub fn norm(&self) -> (r: i64)
        ensures
            r == spec_qnorm(*self),
    {
        let ww = square_u128(self.w);
        let xx = square_u128(self.x);
        let yy = square_u128(self.y);
        let zz = square_u128(self.z);
        proof {
            crate::fx::lemma_i64_mul_bound(self.w as int, self.w as int);
            crate::fx::lemma_i64_mul_bound(self.x as int, self.x as int);
            crate::fx::lemma_i64_mul_bound(self.y as int, self.y as int);
            crate::fx::lemma_i64_mul_bound(self.z as int, self.z as int);
        }
        let partial: u128 = ww + xx + yy;
        let root: i64 = match partial.checked_add(zz) {
            Some(sq) => {
                let root = isqrt_u128(sq);
                proof {
                    lemma_sqrt_floor_bounds(sq as int);
                }
                if root > i64::MAX as u128 {
                    i64::MAX
                } else {
                    root as i64
                }
            },
            None => {
                // The sum of the four squares exceeds `u128::MAX` only in
                // the single corner where it is exactly `2^128`, whose
                // root saturates anyway.
                proof {
                    lemma_sqrt_floor_unique(
                        0x1_0000_0000_0000_0000_0000_0000_0000_0000int,
                        0x1_0000_0000_0000_0000int,
                    );
                }
                i64::MAX
            },
        };
        root
    }

    /// Scale to unit norm; the norm must be positive.
    pub fn normalize(self) -> (r: Quaternion)
        requires
            spec_qnorm(self) > 0,
        ensures
            r == spec_qnormalize(self),
    {
        let n = self.norm();
        Quaternion {
            w: fx_div(self.w, n),
            x: fx_div(self.x, n),
            y: fx_div(self.y, n),
            z: fx_div(self.z, n),
        }
    }

    /// Rotate a vector by the quaternion.
    pub fn rotate(&self, vector: Vec3) -> (r: Vec3)
        ensures
            r == spec_qrotate(*self, vector),
    {
        let q = Quaternion { w: 0, x: vector.x, y: vector.y, z: vector.z };
        let p = self.mul(q).mul(self.conj());
        Vec3 { x: p.x, y: p.y, z: p.z }
    }

    /// Blend toward the identity by fraction `a`, normalized; the blend
    /// must not collapse to norm zero.
    pub fn fractional(self, a: i64) -> (r: Quaternion)
        requires
            spec_qnorm(spec_qfrac_raw(self, a as int)) > 0,
        ensures
            r == spec_qnormalize(spec_qfrac_raw(self, a as int)),
    {
        let raw = Quaternion {
            w: fx_add(fx_sub(ONE, a), fx_mul(a, self.w)),
            x: fx_mul(self.x, a),
            y: fx_mul(self.y, a),
            z: fx_mul(self.z, a),
        };
        raw.normalize()
    }

    /// The normalized rotation carrying the quaternion toward a vector;
    /// the intermediate value must not have norm zero.
    pub fn rotation_between_vectors(self, vector: Vec3) -> (r: Quaternion)
        requires
            spec_qnorm(spec_qbetween_raw(self, vector)) > 0,
        ensures
            r == spec_qnormalize(spec_qbetween_raw(self, vector)),
    {
        let p = self.mul(Quaternion { w: 0, x: vector.x, y: vector.y, z: vector.z });
        let raw = Quaternion { w: fx_sub(ONE, p.w), x: p.x, y: p.y, z: p.z };
        raw.normalize()
    }

    /// The rotation of `angle` about `axis`; the axis is assumed to be of
    /// unit length.
    pub fn from_axis_angle(axis: Vec3, angle: i64) -> (r: Quaternion)
        ensures
            r == spec_qaxis_angle(axis, angle as int),
    {
        let half = fx_divi(angle, 2);
        let sa = fx_sin(half);
        Quaternion {
            w: fx_cos(half),
            x: fx_mul(axis.x, sa),
            y: fx_mul(axis.y, sa),
            z: fx_mul(axis.z, sa),
        }
    }

    /// Build the quaternion for roll, pitch and yaw angles.
    pub fn from_euler(euler_angles: Vec3) -> (r: Quaternion)
        ensures
            r == spec_qfrom_euler(euler_angles),
    {
        let cr = fx_cos(fx_divi(euler_angles.x, 2));
        let cp = fx_cos(fx_divi(euler_angles.y, 2));
        let cy = fx_cos(fx_divi(euler_angles.z, 2));
        let sr = fx_sin(fx_divi(euler_angles.x, 2));
        let sp = fx_sin(fx_divi(euler_angles.y, 2));
        let sy = fx_sin(fx_divi(euler_angles.z, 2));
        Quaternion {
            w: fx_add(fx_mul(fx_mul(cr, cp), cy), fx_mul(fx_mul(sr, sp), sy)),
            x: fx_sub(fx_mul(fx_mul(sr, cp), cy), fx_mul(fx_mul(cr, sp), sy)),
            y: fx_add(fx_mul(fx_mul(cr, sp), cy), fx_mul(fx_mul(sr, cp), sy)),
            z: fx_sub(fx_mul(fx_mul(cr, cp), sy), fx_mul(fx_mul(sr, sp), cy)),
        }
    }

    /// Roll, pitch and yaw of the quaternion; precision is lost near
    /// gimbal lock.
    pub fn to_euler(self) -> (r: Vec3)
        ensures
            r == spec_qto_euler(self),
    {
        let two: i64 = 2 * ONE;
        let ex = fx_mul(
            two,
            fx_atan2(
                fx_add(fx_mul(self.w, self.x), fx_mul(self.y, self.z)),
                fx_sub(ONE, fx_mul(two, fx_add(fx_mul(self.x, self.x), fx_mul(self.y, self.y)))),
            ),
        );
        let ey = fx_asin(fx_mul(two, fx_sub(fx_mul(self.w, self.y), fx_mul(self.z, self.x))));
        let ez = fx_mul(
            two,
            fx_atan2(
                fx_add(fx_mul(self.w, self.z), fx_mul(self.x, self.y)),
                fx_sub(ONE, fx_mul(two, fx_add(fx_mul(self.y, self.y), fx_mul(self.z, self.z)))),
            ),
        );
        Vec3 { x: ex, y: ey, z: ez }
    }
}

impl Default for Quaternion {
    /// The identity rotation.
    fn default() -> (r: Quaternion)
        ensures
            r == spec_qident(),
    {
        Quaternion { w: ONE, x: 0, y: 0, z: 0 }
    }
}

/// A product with the scalar one keeps a scalar unchanged.
pub proof fn lemma_mul_one(a: int)
    requires
        i64::MIN <= a <= i64::MAX,
    ensures
        spec_mul(a, ONE as int) == a,
{
    if a > 0 {
        assert((a * 1_000_000) / 1_000_000 == a) by (nonlinear_arith)
            requires
                a > 0,
        ;
    } else if a < 0 {
        assert(((a * 1_000_000) * -1) / 1_000_000 == a * -1) by (nonlinear_arith)
            requires
                a < 0,
        ;
    }
}

/// A product with the scalar zero is zero.
pub proof fn lemma_mul_zero(a: int)
    ensures
        spec_mul(a, 0) == 0,
        spec_mul(0, a) == 0,
{
}

/// The Hamilton product with the identity on the right keeps the
/// quaternion unchanged.
pub proof fn lemma_qmul_identity(q: Quaternion)
    ensures
        spec_qmul(q, spec_qident()) == q,
{
    lemma_mul_one(q.w as int);
    lemma_mul_one(q.x as int);
    lemma_mul_one(q.y as int);
    lemma_mul_one(q.z as int);
    lemma_mul_zero(q.w as int);
    lemma_mul_zero(q.x as int);
    lemma_mul_zero(q.y as int);
    lemma_mul_zero(q.z as int);
}

/// Rotating the zero vector yields the zero vector, whatever the
/// quaternion.
pub proof fn lemma_qrotate_zero(q: Quaternion)
    ensures
        spec_qrotate(q, Vec3 { x: 0i64, y: 0i64, z: 0i64 }) == (Vec3 { x: 0i64, y: 0i64, z: 0i64 }),
{
    lemma_mul_zero(q.w as int);
    lemma_mul_zero(q.x as int);
    lemma_mul_zero(q.y as int);
    lemma_mul_zero(q.z as int);
    lemma_mul_zero(spec_neg(q.x as int));
    lemma_mul_zero(spec_neg(q.y as int));
    lemma_mul_zero(spec_neg(q.z as int));
}

} // verus!
