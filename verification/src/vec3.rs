//! Three-component vectors over fixed-point scalars.

use vstd::prelude::*;

use crate::fx::{
    fx_abs, fx_add, fx_div, fx_mul, fx_neg, fx_sub, lemma_i64_mul_bound, lemma_sqrt_floor_bounds,
    isqrt_u128, sat, spec_abs, spec_abs_int, spec_add, spec_div, spec_mul, spec_neg, spec_sub,
    sqrt_floor, ONE,
};
use crate::trig::{fx_acos, spec_acos};

verus! {

/// A vector of three fixed-point scalars.
#[derive(Clone, Copy, PartialEq, Eq, Structural, Debug)]
pub struct Vec3 {
    pub x: i64,
    pub y: i64,
    pub z: i64,
}

/// The zero vector.
pub open spec fn spec_vzero() -> Vec3 {
    Vec3 { x: 0i64, y: 0i64, z: 0i64 }
}

/// Componentwise sum.
pub open spec fn spec_vadd(a: Vec3, b: Vec3) -> Vec3 {
    Vec3 {
        x: spec_add(a.x as int, b.x as int) as i64,
        y: spec_add(a.y as int, b.y as int) as i64,
        z: spec_add(a.z as int, b.z as int) as i64,
    }
}

/// Componentwise difference.
pub open spec fn spec_vsub(a: Vec3, b: Vec3) -> Vec3 {
    Vec3 {
        x: spec_sub(a.x as int, b.x as int) as i64,
        y: spec_sub(a.y as int, b.y as int) as i64,
        z: spec_sub(a.z as int, b.z as int) as i64,
    }
}

/// Componentwise negation.
pub open spec fn spec_vneg(a: Vec3) -> Vec3 {
    Vec3 {
        x: spec_neg(a.x as int) as i64,
        y: spec_neg(a.y as int) as i64,
        z: spec_neg(a.z as int) as i64,
    }
}

/// Componentwise absolute value.
pub open spec fn spec_vabs(a: Vec3) -> Vec3 {
    Vec3 {
        x: spec_abs(a.x as int) as i64,
        y: spec_abs(a.y as int) as i64,
        z: spec_abs(a.z as int) as i64,
    }
}

/// Componentwise product.
pub open spec fn spec_vmul(a: Vec3, b: Vec3) -> Vec3 {
    Vec3 {
        x: spec_mul(a.x as int, b.x as int) as i64,
        y: spec_mul(a.y as int, b.y as int) as i64,
        z: spec_mul(a.z as int, b.z as int) as i64,
    }
}

/// Product with a scalar.
pub open spec fn spec_vscale(a: Vec3, s: int) -> Vec3 {
    Vec3 {
        x: spec_mul(a.x as int, s) as i64,
        y: spec_mul(a.y as int, s) as i64,
        z: spec_mul(a.z as int, s) as i64,
    }
}

/// Quotient by a scalar; meaningful only for `s != 0`.
pub open spec fn spec_vscale_div(a: Vec3, s: int) -> Vec3 {
    Vec3 {
        x: spec_div(a.x as int, s) as i64,
        y: spec_div(a.y as int, s) as i64,
        z: spec_div(a.z as int, s) as i64,
    }
}

/// Componentwise quotient; meaningful only when `b` has no zero component.
pub open spec fn spec_vdiv(a: Vec3, b: Vec3) -> Vec3 {
    Vec3 {
        x: spec_div(a.x as int, b.x as int) as i64,
        y: spec_div(a.y as int, b.y as int) as i64,
        z: spec_div(a.z as int, b.z as int) as i64,
    }
}

/// Dot product.
pub open spec fn spec_vdot(a: Vec3, b: Vec3) -> int {
    spec_add(
        spec_add(spec_mul(a.x as int, b.x as int), spec_mul(a.y as int, b.y as int)),
        spec_mul(a.z as int, b.z as int),
    )
}

/// Cross product.
pub open spec fn spec_vcross(a: Vec3, b: Vec3) -> Vec3 {
    Vec3 {
        x: spec_sub(spec_mul(a.y as int, b.z as int), spec_mul(a.z as int, b.y as int)) as i64,
        y: spec_sub(spec_mul(a.z as int, b.x as int), spec_mul(a.x as int, b.z as int)) as i64,
        z: spec_sub(spec_mul(a.x as int, b.y as int), spec_mul(a.y as int, b.x as int)) as i64,
    }
}

/// Sum of the squared components, an exact mathematical integer.
pub open spec fn spec_vnorm_sq(a: Vec3) -> int {
    a.x as int * a.x as int + a.y as int * a.y as int + a.z as int * a.z as int
}

/// Euclidean norm: the integer square root of the exact sum of squares.
pub open spec fn spec_vnorm(a: Vec3) -> int {
    sat(sqrt_floor(spec_vnorm_sq(a)))
}

/// A sum of squares is never negative.
pub proof fn lemma_vnorm_sq_nonneg(a: Vec3)
    ensures
        spec_vnorm_sq(a) >= 0,
{
    assert(a.x as int * a.x as int >= 0 && a.y as int * a.y as int >= 0 && a.z as int * a.z as int
        >= 0) by (nonlinear_arith);
}

/// The norm is never negative.
pub proof fn lemma_vnorm_nonneg(a: Vec3)
    ensures
        spec_vnorm(a) >= 0,
{
    lemma_vnorm_sq_nonneg(a);
    lemma_sqrt_floor_bounds(spec_vnorm_sq(a));
}

/// The vector scaled to unit length; meaningful only when the norm is
/// positive.
pub open spec fn spec_vnormalize(a: Vec3) -> Vec3 {
    spec_vscale_div(a, spec_vnorm(a))
}

/// Angle between two vectors; meaningful only when the product of the
/// norms is a positive scalar.
pub open spec fn spec_vangle(a: Vec3, b: Vec3) -> int {
    spec_acos(spec_div(spec_vdot(a, b), spec_mul(spec_vnorm(a), spec_vnorm(b))))
}

impl Vec3 {
    /// Build a vector from its components.
    pub fn new(x: i64, y: i64, z: i64) -> (r: Vec3)
        ensures
            r == (Vec3 { x, y, z }),
    {
        Vec3 { x, y, z }
    }

    /// The zero vector.
    pub fn zero() -> (r: Vec3)
        ensures
            r == (Vec3 { x: 0i64, y: 0i64, z: 0i64 }),
    {
        Vec3 { x: 0, y: 0, z: 0 }
    }

    /// Componentwise absolute value.
    pub fn abs(self) -> (r: Vec3)
        ensures
            r == spec_vabs(self),
    {
        Vec3 { x: fx_abs(self.x), y: fx_abs(self.y), z: fx_abs(self.z) }
    }

    /// Componentwise sum.
    pub fn add(self, other: Vec3) -> (r: Vec3)
        ensures
            r == spec_vadd(self, other),
    {
        Vec3 {
            x: fx_add(self.x, other.x),
            y: fx_add(self.y, other.y),
            z: fx_add(self.z, other.z),
        }
    }

    /// Componentwise difference.
    pub fn sub(self, other: Vec3) -> (r: Vec3)
        ensures
            r == spec_vsub(self, other),
    {
        Vec3 {
            x: fx_sub(self.x, other.x),
            y: fx_sub(self.y, other.y),
            z: fx_sub(self.z, other.z),
        }
    }

    /// Componentwise negation.
    pub fn neg(self) -> (r: Vec3)
        ensures
            r == spec_vneg(self),
    {
        Vec3 { x: fx_neg(self.x), y: fx_neg(self.y), z: fx_neg(self.z) }
    }

    /// Componentwise product.
    pub fn mul(self, other: Vec3) -> (r: Vec3)
        ensures
            r == spec_vmul(self, other),
    {
        Vec3 {
            x: fx_mul(self.x, other.x),
            y: fx_mul(self.y, other.y),
            z: fx_mul(self.z, other.z),
        }
    }

    /// Product with a scalar.
    pub fn scale(self, s: i64) -> (r: Vec3)
        ensures
            r == spec_vscale(self, s as int),
    {
        Vec3 { x: fx_mul(self.x, s), y: fx_mul(self.y, s), z: fx_mul(self.z, s) }
    }

    /// Quotient by a nonzero scalar.
    pub fn scale_div(self, s: i64) -> (r: Vec3)
        requires
            s != 0,
        ensures
            r == spec_vscale_div(self, s as int),
    {
        Vec3 { x: fx_div(self.x, s), y: fx_div(self.y, s), z: fx_div(self.z, s) }
    }

    /// Componentwise quotient by a vector with no zero component.
    pub fn div(self, other: Vec3) -> (r: Vec3)
        requires
            other.x != 0,
            other.y != 0,
            other.z != 0,
        ensures
            r == spec_vdiv(self, other),
    {
        Vec3 {
            x: fx_div(self.x, other.x),
            y: fx_div(self.y, other.y),
            z: fx_div(self.z, other.z),
        }
    }

    /// Dot product.
    pub fn dot(self, other: Vec3) -> (r: i64)
        ensures
            r == spec_vdot(self, other),
    {
        fx_add(fx_add(fx_mul(self.x, other.x), fx_mul(self.y, other.y)), fx_mul(self.z, other.z))
    }

    /// Cross product.
    pub fn cross(self, other: Vec3) -> (r: Vec3)
        ensures
            r == spec_vcross(self, other),
    {
        Vec3 {
            x: fx_sub(fx_mul(self.y, other.z), fx_mul(self.z, other.y)),
            y: fx_sub(fx_mul(self.z, other.x), fx_mul(self.x, other.z)),
            z: fx_sub(fx_mul(self.x, other.y), fx_mul(self.y, other.x)),
        }
    }

    /// Euclidean norm of the vector.
    pub fn norm(&self) -> (r: i64)
        ensures
            r == spec_vnorm(*self),
    {
        let sq = sum_of_squares(self.x, self.y, self.z);
        let root = isqrt_u128(sq);
        proof {
            lemma_sqrt_floor_bounds(sq as int);
        }
        if root > i64::MAX as u128 {
            i64::MAX
        } else {
            root as i64
        }
    }

    /// Scale the vector to unit length; the norm must be positive.
    pub fn normalize(self) -> (r: Vec3)
        requires
            spec_vnorm(self) > 0,
        ensures
            r == spec_vnormalize(self),
    {
        let n = self.norm();
        self.scale_div(n)
    }

    /// Angle between this vector and another, from the dot product; the
    /// product of the norms must be a positive scalar.
    pub fn angle_between(self, other: Vec3) -> (r: i64)
        requires
            spec_mul(spec_vnorm(self), spec_vnorm(other)) != 0,
        ensures
            r == spec_vangle(self, other),
    {
        let d = self.dot(other);
        let nn = fx_mul(self.norm(), other.norm());
        fx_acos(fx_div(d, nn))
    }

    /// The component selected by an index below three.
    pub fn index(&self, i: usize) -> (r: i64)
        requires
            i < 3,
        ensures
            i == 0 ==> r == self.x,
            i == 1 ==> r == self.y,
            i == 2 ==> r == self.z,
    {
        if i == 0 {
            self.x
        } else if i == 1 {
            self.y
        } else {
            self.z
        }
    }
}

/// An integer whose square lies below the next square is bounded by the
/// root of the smaller one.
proof fn lemma_square_le(x: int, n: int)
    requires
        n >= 1,
        x * x < (n + 1) * (n + 1),
    ensures
        x * x <= n * n,
{
    let ax: int = if x < 0 {
        x * -1
    } else {
        x
    };
    assert(x * x == ax * ax && ax >= 0) by (nonlinear_arith)
        requires
            (x < 0 && ax == x * -1) || (x >= 0 && ax == x),
    ;
    if ax >= n + 1 {
        assert(ax * ax >= (n + 1) * (n + 1)) by (nonlinear_arith)
            requires
                ax >= n + 1,
                n >= 1,
        ;
        assert(false);
    }
    assert(ax * ax <= n * n) by (nonlinear_arith)
        requires
            0 <= ax,
            ax <= n,
    ;
}

/// One normalized component: the truncating quotient of a component
/// scaled by `SCALE` over the norm, squeezed between the exact ratio and
/// its neighbour.
proof fn lemma_unit_div_bounds(x: int, n: int)
    requires
        n >= 1,
        x * x <= n * n,
    ensures
        ({
            let u = crate::fx::tdiv(x * 1_000_000, n);
            let au = crate::fx::spec_abs_int(u);
            &&& au <= 1_000_000
            &&& u * u == au * au
            &&& au * au * (n * n) <= x * x * (1_000_000 * 1_000_000)
            &&& x * x * (1_000_000 * 1_000_000) < (au * au + 2 * au + 1) * (n * n)
        }),
{
    let s: int = 1_000_000;
    let a = x * s;
    let ax: int = if x < 0 {
        x * -1
    } else {
        x
    };
    let aa: int = if a < 0 {
        a * -1
    } else {
        a
    };
    let u = crate::fx::tdiv(a, n);
    let au = crate::fx::spec_abs_int(u);
    assert(aa == ax * s) by (nonlinear_arith)
        requires
            a == x * s,
            s > 0,
            (x < 0 && ax == x * -1 && aa == a * -1) || (x >= 0 && ax == x && aa == a),
    ;
    assert(ax <= n) by (nonlinear_arith)
        requires
            x * x <= n * n,
            n >= 1,
            (x < 0 && ax == x * -1) || (x >= 0 && ax == x),
    ;
    assert(aa / n >= 0) by (nonlinear_arith)
        requires
            aa >= 0,
            n >= 1,
    ;
    assert(au == aa / n);
    assert((aa / n) * n <= aa && aa < (aa / n + 1) * n) by (nonlinear_arith)
        requires
            aa >= 0,
            n >= 1,
    ;
    assert(aa / n <= s) by (nonlinear_arith)
        requires
            aa <= n * s,
            aa >= 0,
            n >= 1,
            s > 0,
    ;
    assert(u * u == au * au) by (nonlinear_arith)
        requires
            (u < 0 && au == u * -1) || (u >= 0 && au == u),
    ;
    assert(au * au * (n * n) <= x * x * (s * s) && x * x * (s * s) < (au * au + 2 * au + 1) * (n
        * n)) by (nonlinear_arith)
        requires
            au * n <= aa,
            aa < (au + 1) * n,
            au >= 0,
            n >= 1,
            aa == ax * s,
            (x < 0 && ax == x * -1) || (x >= 0 && ax == x),
            s == 1_000_000,
    ;
}

/// A normalized vector has norm one, within one ten-thousandth: the law
/// holds for every vector whose norm is at least a tenth of a unit and
/// whose components stay below four million units in magnitude.
pub proof fn lemma_normalize_norm_unit(v: Vec3)
    requires
        spec_vnorm(v) >= 100_000,
        -4_000_000_000_000_000_000 <= v.x as int <= 4_000_000_000_000_000_000,
        -4_000_000_000_000_000_000 <= v.y as int <= 4_000_000_000_000_000_000,
        -4_000_000_000_000_000_000 <= v.z as int <= 4_000_000_000_000_000_000,
    ensures
        spec_abs_int(spec_vnorm(spec_vnormalize(v)) - ONE) <= 100,
{
    let s: int = 1_000_000;
    let x = v.x as int;
    let y = v.y as int;
    let z = v.z as int;
    let q = spec_vnorm_sq(v);
    lemma_vnorm_sq_nonneg(v);
    lemma_sqrt_floor_bounds(q);
    let r0 = sqrt_floor(q);
    assert(x * x <= 16_000_000_000_000_000_000_000_000_000_000_000_000 && y * y
        <= 16_000_000_000_000_000_000_000_000_000_000_000_000 && z * z
        <= 16_000_000_000_000_000_000_000_000_000_000_000_000) by (nonlinear_arith)
        requires
            -4_000_000_000_000_000_000 <= x <= 4_000_000_000_000_000_000,
            -4_000_000_000_000_000_000 <= y <= 4_000_000_000_000_000_000,
            -4_000_000_000_000_000_000 <= z <= 4_000_000_000_000_000_000,
    ;
    if r0 > 7_000_000_000_000_000_000 {
        assert(r0 * r0 > 48_000_000_000_000_000_000_000_000_000_000_000_000)
            by (nonlinear_arith)
            requires
                r0 > 7_000_000_000_000_000_000,
        ;
        assert(false);
    }
    let n = spec_vnorm(v);
    assert(n == r0);
    assert(n >= 100_000);
    assert(y * y >= 0 && z * z >= 0 && x * x >= 0) by (nonlinear_arith);
    assert(q < (n + 1) * (n + 1));
    lemma_square_le(x, n);
    lemma_square_le(y, n);
    lemma_square_le(z, n);
    lemma_unit_div_bounds(x, n);
    lemma_unit_div_bounds(y, n);
    lemma_unit_div_bounds(z, n);
    let ux = crate::fx::tdiv(x * s, n);
    let uy = crate::fx::tdiv(y * s, n);
    let uz = crate::fx::tdiv(z * s, n);
    let aux = crate::fx::spec_abs_int(ux);
    let auy = crate::fx::spec_abs_int(uy);
    let auz = crate::fx::spec_abs_int(uz);
    let w = spec_vnormalize(v);
    assert(w.x as int == ux && w.y as int == uy && w.z as int == uz);
    let sumu = spec_vnorm_sq(w);
    assert(sumu == ux * ux + uy * uy + uz * uz);
    // The squared norm of the scaled vector, squeezed from both sides.
    assert(sumu * (n * n) <= q * (s * s)) by (nonlinear_arith)
        requires
            sumu == ux * ux + uy * uy + uz * uz,
            q == x * x + y * y + z * z,
            ux * ux * (n * n) <= x * x * (s * s),
            uy * uy * (n * n) <= y * y * (s * s),
            uz * uz * (n * n) <= z * z * (s * s),
    ;
    assert(q * (s * s) < (sumu + 2 * (aux + auy + auz) + 3) * (n * n)) by (nonlinear_arith)
        requires
            sumu == ux * ux + uy * uy + uz * uz,
            ux * ux == aux * aux,
            uy * uy == auy * auy,
            uz * uz == auz * auz,
            q == x * x + y * y + z * z,
            x * x * (s * s) < (aux * aux + 2 * aux + 1) * (n * n),
            y * y * (s * s) < (auy * auy + 2 * auy + 1) * (n * n),
            z * z * (s * s) < (auz * auz + 2 * auz + 1) * (n * n),
    ;
    // Lower bound: the squared norm exceeds (s - 10)^2.
    assert(n * n * (s * s) <= q * (s * s)) by (nonlinear_arith)
        requires
            n * n <= q,
    ;
    assert(s * s < sumu + 2 * (aux + auy + auz) + 3) by (nonlinear_arith)
        requires
            n * n * (s * s) < (sumu + 2 * (aux + auy + auz) + 3) * (n * n),
            n >= 1,
    ;
    assert(sumu > (s - 10) * (s - 10)) by (nonlinear_arith)
        requires
            s == 1_000_000,
            s * s < sumu + 2 * (aux + auy + auz) + 3,
            aux <= s,
            auy <= s,
            auz <= s,
    ;
    // Upper bound: the squared norm stays below (s + 100)^2.
    assert(q * (s * s) < ((n + 1) * (n + 1)) * (s * s)) by (nonlinear_arith)
        requires
            q < (n + 1) * (n + 1),
            s == 1_000_000,
    ;
    if sumu >= (s + 100) * (s + 100) {
        assert(((s + 100) * (s + 100)) * (n * n) <= sumu * (n * n)) by (nonlinear_arith)
            requires
                sumu >= (s + 100) * (s + 100),
        ;
        assert((s + 100) * n < (n + 1) * s) by (nonlinear_arith)
            requires
                ((s + 100) * (s + 100)) * (n * n) < ((n + 1) * (n + 1)) * (s * s),
                n >= 1,
                s >= 1,
        ;
        assert(false) by (nonlinear_arith)
            requires
                (s + 100) * n < (n + 1) * s,
                n >= 100_000,
                s == 1_000_000,
        ;
    }
    // Read the bounds back through the integer square root.
    lemma_vnorm_sq_nonneg(w);
    lemma_sqrt_floor_bounds(sumu);
    let rw = sqrt_floor(sumu);
    if rw < s - 10 {
        assert((rw + 1) * (rw + 1) <= (s - 10) * (s - 10)) by (nonlinear_arith)
            requires
                0 <= rw,
                rw + 1 <= s - 10,
        ;
        assert(false);
    }
    if rw > s + 99 {
        assert(rw * rw >= (s + 100) * (s + 100)) by (nonlinear_arith)
            requires
                rw >= s + 100,
                s >= 1,
        ;
        assert(false);
    }
    assert(spec_vnorm(w) == rw);
}

impl Default for Vec3 {
    /// The zero vector.
    fn default() -> (r: Vec3)
        ensures
            r == (Vec3 { x: 0i64, y: 0i64, z: 0i64 }),
    {
        Vec3 { x: 0, y: 0, z: 0 }
    }
}

/// Exact sum of the squares of three scalars, in a `u128`.
fn sum_of_squares(x: i64, y: i64, z: i64) -> (r: u128)
    ensures
        r as int == x as int * x as int + y as int * y as int + z as int * z as int,
{
    let xx = square_u128(x);
    let yy = square_u128(y);
    let zz = square_u128(z);
    proof {
        lemma_i64_mul_bound(x as int, x as int);
        lemma_i64_mul_bound(y as int, y as int);
        lemma_i64_mul_bound(z as int, z as int);
    }
    xx + yy + zz
}

/// Exact square of a scalar, in a `u128`.
pub(crate) fn square_u128(x: i64) -> (r: u128)
    ensures
        r as int == x as int * x as int,
{
    let ax: u64 = if x >= 0 {
        x as u64
    } else {
        proof {
            lemma_i64_mul_bound(x as int, -1int);
        }
        ((x as i128) * -1) as u64
    };
    proof {
        assert(ax as int * ax as int == x as int * x as int) by (nonlinear_arith)
            requires
                ax as int == x as int || ax as int == (x as int) * -1,
        ;
        assert(ax as int * ax as int <= 0x4000_0000_0000_0000_0000_0000_0000_0000)
            by (nonlinear_arith)
            requires
                0 <= ax as int <= 0x8000_0000_0000_0000,
        ;
    }
    (ax as u128) * (ax as u128)
}

} // verus!
