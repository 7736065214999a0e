//! Small scalar helpers shared by the control components.

use vstd::prelude::*;

use crate::fx::{
    fx_add, fx_div, fx_mul, fx_sub, spec_add, spec_div, spec_mul, spec_sub, ONE,
};
use crate::rng::gen_range_i64;
use crate::trig::{fx_asin, fx_cos, fx_sin, spec_asin, spec_cos, spec_sin};

verus! {

/// Degrees-to-radians factor, in fixed point.
pub const DEG_TO_RAD: i64 = 17_453;

/// Radians-to-degrees factor, in fixed point.
pub const RAD_TO_DEG: i64 = 57_295_780;

/// The greater of two scalars.
pub fn max(a: i64, b: i64) -> (r: i64)
    ensures
        r == if a > b { a } else { b },
{
    if a > b {
        a
    } else {
        b
    }
}

/// The lesser of two scalars.
pub fn min(a: i64, b: i64) -> (r: i64)
    ensures
        r == if a < b { a } else { b },
{
    if a < b {
        a
    } else {
        b
    }
}

/// A scalar clamped into a range.
pub open spec fn spec_clamp(n: int, minn: int, maxn: int) -> int {
    let low = if maxn < n { maxn } else { n };
    if low > minn {
        low
    } else {
        minn
    }
}

/// Clamps output to a range.
pub fn clamp(n: i64, minn: i64, maxn: i64) -> (r: i64)
    ensures
        r == spec_clamp(n as int, minn as int, maxn as int),
{
    max(min(maxn, n), minn)
}

/// First-order low-pass blend of a new sample with the old state.
pub open spec fn spec_lpf(new: int, old_v: int, gain: int) -> int {
    spec_add(spec_mul(new, spec_sub(ONE as int, gain)), spec_mul(old_v, gain))
}

/// First-order low-pass filter: blend the new sample with the old state
/// by the gain.
pub fn lpf(new: i64, old_value: i64, gain: i64) -> (r: i64)
    ensures
        r == spec_lpf(new as int, old_value as int, gain as int),
{
    fx_add(fx_mul(new, fx_sub(ONE, gain)), fx_mul(old_value, gain))
}

/// A point in the plane, in fixed-point coordinates.
#[derive(Clone, Copy, PartialEq, Eq, Structural, Debug)]
pub struct Vec2 {
    pub x: i64,
    pub y: i64,
}

/// A plane point rotated about the origin.
pub open spec fn spec_rotate2(pt: Vec2, theta: int) -> Vec2 {
    let cs = spec_cos(theta);
    let sn = spec_sin(theta);
    Vec2 {
        x: spec_sub(spec_mul(pt.x as int, cs), spec_mul(pt.y as int, sn)) as i64,
        y: spec_add(spec_mul(pt.x as int, sn), spec_mul(pt.y as int, cs)) as i64,
    }
}

/// Rotate a plane point about the origin by `theta` radians.
pub fn rotate(pt: Vec2, theta: i64) -> (r: Vec2)
    ensures
        r == spec_rotate2(pt, theta as int),
{
    let cs = fx_cos(theta);
    let sn = fx_sin(theta);
    Vec2 {
        x: fx_sub(fx_mul(pt.x, cs), fx_mul(pt.y, sn)),
        y: fx_add(fx_mul(pt.x, sn), fx_mul(pt.y, cs)),
    }
}

/// The gimbal angle whose sine produces a desired torque through the
/// moment arm, or zero where the inputs are degenerate or the demand is
/// out of reach.
pub open spec fn spec_angle_for_torque(
    moment_arm: int,
    force: int,
    mmoi: int,
    desired_torque: int,
) -> int {
    if force != 0 && moment_arm != 0 {
        let calcval = spec_div(spec_div(spec_mul(desired_torque, mmoi), force), moment_arm);
        if calcval > ONE as int || calcval < -(ONE as int) {
            0
        } else {
            spec_asin(calcval)
        }
    } else {
        0
    }
}

/// The gimbal angle whose sine produces the desired torque through the
/// moment arm; zero force or a zero arm, or a demand beyond reach, yield
/// zero.
pub fn calculate_angle_fom_desired_torque(
    moment_arm: i64,
    force: i64,
    mmoi: i64,
    desired_torque: i64,
) -> (r: i64)
    ensures
        r == spec_angle_for_torque(
            moment_arm as int,
            force as int,
            mmoi as int,
            desired_torque as int,
        ),
{
    if force != 0 && moment_arm != 0 {
        let calcval = fx_div(fx_div(fx_mul(desired_torque, mmoi), force), moment_arm);
        if calcval > ONE || calcval < -ONE {
            0
        } else {
            fx_asin(calcval)
        }
    } else {
        0
    }
}

/// A fair draw between plus and minus one.
pub fn positive_or_negative() -> (r: i8)
    ensures
        r == 1i8 || r == -1i8,
{
    let c = gen_range_i64(0, 1);
    if c == 1 {
        1
    } else {
        -1
    }
}

} // verus!
