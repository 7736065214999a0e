//! Thrust-vector-control actuator: a rate-limited servo pair driving a
//! gimbaled nozzle through a mechanical linkage.
//!
//! Saturation is not an error here: a command beyond the servo's rate or
//! travel limits is silently clamped, so the achieved deflection may
//! differ from the command by design.

use vstd::prelude::*;

use crate::fx::{
    fx_add, fx_div, fx_mul, fx_neg, fx_sub, spec_abs_int, spec_add, spec_div, spec_mul, spec_neg,
    spec_sub,
};
use crate::trig::{fx_cos, fx_sin, spec_cos, spec_sin};
use crate::utils::{clamp, spec_clamp, DEG_TO_RAD, RAD_TO_DEG};
use crate::vec3::Vec3;

verus! {

/// The gimbal actuator.  Geometry and limits are fixed at construction;
/// the servo state changes once per `actuate` call.
pub struct TVC {
    command: Vec3,
    position: Vec3,
    servo_position: Vec3,
    travel_min: Vec3,
    travel_max: Vec3,
    offset: Vec3,
    servo_speed: i64,
    linkage_ratio: i64,
    force: Vec3,
}

/// The mathematical state of the actuator.
pub ghost struct TvcV {
    pub command: Vec3,
    pub position: Vec3,
    pub servo_position: Vec3,
    pub travel_min: Vec3,
    pub travel_max: Vec3,
    pub offset: Vec3,
    pub servo_speed: int,
    pub linkage_ratio: int,
    pub force: Vec3,
}

impl View for TVC {
    type V = TvcV;

    closed spec fn view(&self) -> TvcV {
        TvcV {
            command: self.command,
            position: self.position,
            servo_position: self.servo_position,
            travel_min: self.travel_min,
            travel_max: self.travel_max,
            offset: self.offset,
            servo_speed: self.servo_speed as int,
            linkage_ratio: self.linkage_ratio as int,
            force: self.force,
        }
    }
}

/// One servo axis advanced toward a commanded value: the step is
/// rate-limited to the servo speed over the tick, then the position is
/// clamped into its travel range.
pub open spec fn spec_servo_step(
    servo: int,
    cmd_units: int,
    speed: int,
    dt: int,
    lo: int,
    hi: int,
) -> int {
    let actuation = spec_clamp(spec_sub(cmd_units, servo), spec_neg(speed), speed);
    spec_clamp(spec_add(servo, spec_mul(actuation, dt)), lo, hi)
}

/// A commanded gimbal angle converted into servo-linkage units.
pub open spec fn spec_command_units(angle: int, linkage_ratio: int) -> int {
    spec_mul(spec_mul(angle, RAD_TO_DEG as int), linkage_ratio)
}

/// A servo position mapped back through offset and linkage into the
/// achieved nozzle deflection, in radians.
pub open spec fn spec_achieved_angle(servo: int, offset: int, linkage_ratio: int) -> int {
    spec_mul(spec_div(spec_add(servo, offset), linkage_ratio), DEG_TO_RAD as int)
}

/// The actuator state after one `actuate` call.  Meaningful only for a
/// nonzero linkage ratio.
pub open spec fn spec_tvc_actuate(s: TvcV, command_angles: Vec3, dt: int) -> TvcV {
    let cy = spec_command_units(command_angles.y as int, s.linkage_ratio);
    let cz = spec_command_units(command_angles.z as int, s.linkage_ratio);
    let sy = spec_servo_step(
        s.servo_position.y as int,
        cy,
        s.servo_speed,
        dt,
        s.travel_min.y as int,
        s.travel_max.y as int,
    );
    let sz = spec_servo_step(
        s.servo_position.z as int,
        cz,
        s.servo_speed,
        dt,
        s.travel_min.z as int,
        s.travel_max.z as int,
    );
    TvcV {
        command: Vec3 { x: s.command.x, y: cy as i64, z: cz as i64 },
        servo_position: Vec3 { x: s.servo_position.x, y: sy as i64, z: sz as i64 },
        position: Vec3 {
            x: s.position.x,
            y: spec_achieved_angle(sy, s.offset.y as int, s.linkage_ratio) as i64,
            z: spec_achieved_angle(sz, s.offset.z as int, s.linkage_ratio) as i64,
        },
        ..s
    }
}

/// The thrust decomposed through the achieved deflections: the lateral
/// components take the sines, the axial component takes the cosine of the
/// pitch deflection minus the axial loss from the yaw deflection.  The
/// two-axis composition is an approximation, not an exact 3D rotation.
pub open spec fn spec_tvc_forces(position: Vec3, thrust: int) -> Vec3 {
    let fy = spec_mul(spec_sin(position.y as int), thrust);
    let fz = spec_mul(spec_sin(position.z as int), thrust);
    let fx_axial = spec_sub(
        spec_mul(thrust, spec_cos(position.y as int)),
        spec_sub(thrust, spec_mul(thrust, spec_cos(position.z as int))),
    );
    Vec3 { x: fx_axial as i64, y: fy as i64, z: fz as i64 }
}

impl TVC {
    /// A fresh actuator with the given rate limit, linkage ratio, travel
    /// bounds and mounting offset; command, servo and force start at
    /// zero.
    pub fn new(
        servo_speed: i64,
        linkage_ratio: i64,
        travel_min: Vec3,
        travel_max: Vec3,
        offset: Vec3,
    ) -> (r: TVC)
        requires
            linkage_ratio != 0,
        ensures
            r@ == (TvcV {
                command: Vec3 { x: 0i64, y: 0i64, z: 0i64 },
                position: Vec3 { x: 0i64, y: 0i64, z: 0i64 },
                servo_position: Vec3 { x: 0i64, y: 0i64, z: 0i64 },
                travel_min,
                travel_max,
                offset,
                servo_speed: servo_speed as int,
                linkage_ratio: linkage_ratio as int,
                force: Vec3 { x: 0i64, y: 0i64, z: 0i64 },
            }),
    {
        TVC {
            command: Vec3 { x: 0, y: 0, z: 0 },
            position: Vec3 { x: 0, y: 0, z: 0 },
            servo_position: Vec3 { x: 0, y: 0, z: 0 },
            travel_min,
            travel_max,
            offset,
            servo_speed,
            linkage_ratio,
            force: Vec3 { x: 0, y: 0, z: 0 },
        }
    }

    /// The nonzero linkage ratio the actuator was built with never
    /// changes.
    pub open spec fn wf(self) -> bool {
        self@.linkage_ratio != 0
    }

    /// One actuation tick: convert the commanded pitch and yaw angles to
    /// servo units, rate-limit and clamp the servo motion, and map the
    /// servo back to the achieved nozzle deflection.
    pub fn actuate(&mut self, command_angles: Vec3, dt: i64)
        requires
            old(self).wf(),
        ensures
            final(self)@ == spec_tvc_actuate(old(self)@, command_angles, dt as int),
            final(self).wf(),
    {
        self.command.y = fx_mul(fx_mul(command_angles.y, RAD_TO_DEG), self.linkage_ratio);
        self.command.z = fx_mul(fx_mul(command_angles.z, RAD_TO_DEG), self.linkage_ratio);

        let actuation_y = clamp(
            fx_sub(self.command.y, self.servo_position.y),
            fx_neg(self.servo_speed),
            self.servo_speed,
        );
        let actuation_z = clamp(
            fx_sub(self.command.z, self.servo_position.z),
            fx_neg(self.servo_speed),
            self.servo_speed,
        );

        self.servo_position.y = fx_add(self.servo_position.y, fx_mul(actuation_y, dt));
        self.servo_position.z = fx_add(self.servo_position.z, fx_mul(actuation_z, dt));

        self.servo_position.y = clamp(self.servo_position.y, self.travel_min.y, self.travel_max.y);
        self.servo_position.z = clamp(self.servo_position.z, self.travel_min.z, self.travel_max.z);

        self.position.y = fx_mul(
            fx_div(fx_add(self.servo_position.y, self.offset.y), self.linkage_ratio),
            DEG_TO_RAD,
        );
        self.position.z = fx_mul(
            fx_div(fx_add(self.servo_position.z, self.offset.z), self.linkage_ratio),
            DEG_TO_RAD,
        );
    }

    /// Decompose a scalar thrust into the 3D force through the achieved
    /// deflection angles.
    pub fn calculate_forces(&mut self, thrust: i64)
        ensures
            final(self)@ == (TvcV {
                force: spec_tvc_forces(old(self)@.position, thrust as int),
                ..old(self)@
            }),
    {
        self.force.y = fx_mul(fx_sin(self.position.y), thrust);
        self.force.z = fx_mul(fx_sin(self.position.z), thrust);
        self.force.x = fx_sub(
            fx_mul(thrust, fx_cos(self.position.y)),
            fx_sub(thrust, fx_mul(thrust, fx_cos(self.position.z))),
        );
    }

    /// The force computed by the last `calculate_forces` call.
    pub fn force(&self) -> (r: Vec3)
        ensures
            r == self@.force,
    {
        self.force
    }

    /// The achieved nozzle deflection computed by the last `actuate`
    /// call.
    pub fn position(&self) -> (r: Vec3)
        ensures
            r == self@.position,
    {
        self.position
    }

    /// The servo position after the last `actuate` call.
    pub fn servo_position(&self) -> (r: Vec3)
        ensures
            r == self@.servo_position,
    {
        self.servo_position
    }
}

/// After a tick the servo position lies inside its travel range,
/// whatever was commanded.
pub proof fn lemma_servo_within_travel(
    servo: int,
    cmd_units: int,
    speed: int,
    dt: int,
    lo: int,
    hi: int,
)
    requires
        lo <= hi,
    ensures
        lo <= spec_servo_step(servo, cmd_units, speed, dt, lo, hi) <= hi,
{
}

/// A tick from inside the travel range changes the servo position by at
/// most the servo speed times the tick, as long as that cap itself does
/// not overflow the scalar range.
pub proof fn lemma_servo_rate_bound(
    servo: int,
    cmd_units: int,
    speed: int,
    dt: int,
    lo: int,
    hi: int,
)
    requires
        speed >= 0,
        dt >= 0,
        lo <= servo <= hi,
        i64::MIN as int <= servo <= i64::MAX as int,
        crate::fx::tdiv(speed * dt, 1_000_000) <= i64::MAX as int,
    ensures
        spec_abs_int(
            spec_servo_step(servo, cmd_units, speed, dt, lo, hi) - servo,
        ) <= spec_mul(speed, dt),
{
    let s: int = 1_000_000;
    let actuation = spec_clamp(spec_sub(cmd_units, servo), spec_neg(speed), speed);
    let aa = spec_abs_int(actuation);
    assert(0 <= aa <= speed);
    let prod = actuation * dt;
    let aprod = spec_abs_int(prod);
    assert(aprod == aa * dt && aa * dt <= speed * dt) by (nonlinear_arith)
        requires
            dt >= 0,
            speed >= 0,
            0 <= aa <= speed,
            prod == actuation * dt,
            aprod == if prod < 0 {
                prod * -1
            } else {
                prod
            },
            (actuation < 0 && aa == actuation * -1) || (actuation >= 0 && aa == actuation),
    ;
    crate::motor::lemma_tdiv_monotone_nonneg(aprod, speed * dt, s);
    let t1 = crate::fx::tdiv(aprod, s);
    let t2 = crate::fx::tdiv(speed * dt, s);
    assert(spec_abs_int(crate::fx::tdiv(prod, s)) == t1) by {
        if prod < 0 {
            assert((prod * -1) / s >= 0) by (nonlinear_arith)
                requires
                    prod < 0,
                    s > 0,
            ;
        }
    }
    let step = spec_mul(actuation, dt);
    assert(spec_abs_int(step) <= t2);
    let cap = spec_mul(speed, dt);
    assert(cap == t2);
    let moved = spec_add(servo, step);
    let clamped = spec_clamp(moved, lo, hi);
    if step >= 0 {
        assert(servo <= moved && moved <= servo + step);
        assert(servo <= clamped && clamped <= moved);
    } else {
        assert(servo + step <= moved && moved <= servo);
        assert(moved <= clamped && clamped <= servo);
    }
    assert(spec_abs_int(clamped - servo) <= spec_abs_int(step));
}

/// A step command out of reach within one tick advances the servo by
/// exactly the servo speed times the tick, toward the command: the rate
/// limit alone decides the step whenever the travel bounds do not bind.
pub proof fn lemma_servo_rate_limited(
    servo: int,
    cmd_units: int,
    speed: int,
    dt: int,
    lo: int,
    hi: int,
)
    requires
        speed >= 0,
    ensures
        spec_sub(cmd_units, servo) >= speed && lo <= spec_add(servo, spec_mul(speed, dt)) <= hi
            ==> spec_servo_step(servo, cmd_units, speed, dt, lo, hi) == spec_add(
                servo,
                spec_mul(speed, dt),
            ),
        spec_sub(cmd_units, servo) <= spec_neg(speed) && lo <= spec_add(
            servo,
            spec_mul(spec_neg(speed), dt),
        ) <= hi ==> spec_servo_step(servo, cmd_units, speed, dt, lo, hi) == spec_add(
            servo,
            spec_mul(spec_neg(speed), dt),
        ),
{
}

} // verus!
