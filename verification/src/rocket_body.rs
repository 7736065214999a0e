//! The simulation orchestrator: one vehicle, its rigid body, gimbal
//! actuator and motor collection, sequenced once per tick.
//!
//! A tick recomputes the mass from the motors, burns the elapsed time,
//! actuates the gimbal, decomposes the thrust into body-frame force and
//! torque, refreshes the aerodynamic pass, applies the drag, integrates,
//! and advances the clock.  Clearing the accumulators stays with the
//! caller, as does logging.

use vstd::prelude::*;

use crate::engine::{
    engines_wf, spec_elapsed, spec_fleet_after, spec_fleet_sum, spec_fleet_weight, EngineV,
    RocketEngineSystem,
};
use crate::fx::{fx_add, fx_mul, spec_add, spec_mul, ONE};
use crate::motor::{motor_wf, Motor};
use crate::physics::{body_wf, spec_body_aero, spec_body_update, BodyV, PhysicsBody};
use crate::quat::spec_qrotate;
use crate::tvc::{spec_tvc_actuate, spec_tvc_forces, TvcV, TVC};
use crate::vec3::{spec_vadd, spec_vdiv, spec_vscale, spec_vscale_div, Vec3};

verus! {

/// Milliseconds per second, as a fixed-point factor.
pub const MILLIS_FACTOR: i64 = 1_000_000_000;

/// Microseconds per second, as a fixed-point factor.
pub const MICROS_FACTOR: i64 = 1_000_000_000_000;

/// The roll-free moment arm of the drag force.
pub const DRAG_TORQUE_ARM: i64 = -150_000;

/// One vehicle and everything that drives it.
pub struct RocketBody {
    body: PhysicsBody,
    time: i64,
    time_step: i64,
    tvc: TVC,
    tvc_position: Vec3,
    tvc_location: Vec3,
    reaction_wheel_torque: i64,
    rocket_motor: RocketEngineSystem,
    cp_location: Vec3,
    dry_mass: i64,
}

/// The mathematical state of a vehicle.
pub ghost struct RocketBodyV {
    pub body: BodyV,
    pub time: int,
    pub time_step: int,
    pub tvc: TvcV,
    pub tvc_position: Vec3,
    pub tvc_location: Vec3,
    pub reaction_wheel_torque: int,
    pub rocket_motor: EngineV,
    pub cp_location: Vec3,
    pub dry_mass: int,
}

impl View for RocketBody {
    type V = RocketBodyV;

    closed spec fn view(&self) -> RocketBodyV {
        RocketBodyV {
            body: self.body@,
            time: self.time as int,
            time_step: self.time_step as int,
            tvc: self.tvc@,
            tvc_position: self.tvc_position,
            tvc_location: self.tvc_location,
            reaction_wheel_torque: self.reaction_wheel_torque as int,
            rocket_motor: self.rocket_motor@,
            cp_location: self.cp_location,
            dry_mass: self.dry_mass as int,
        }
    }
}

/// The vehicle's structural invariant: positive dry mass, a massive
/// body with rotatable axes, a geared actuator and well-formed motors.
pub open spec fn rocket_wf(s: RocketBodyV) -> bool {
    &&& s.dry_mass >= 1
    &&& body_wf(s.body)
    &&& s.body.moment_of_inertia.x != 0
    &&& s.body.moment_of_inertia.y != 0
    &&& s.body.moment_of_inertia.z != 0
    &&& s.tvc.linkage_ratio != 0
    &&& engines_wf(s.rocket_motor)
}

/// The vehicle state after one tick, each stage written with the spec
/// of the component it drives.
pub open spec fn spec_rocket_tick(s: RocketBodyV) -> RocketBodyV {
    let mass = spec_add(s.dry_mass, spec_fleet_weight(s.rocket_motor.motors, 0, 0));
    let b0 = BodyV { mass, ..s.body };
    let dt_burn = spec_elapsed(s.time, s.rocket_motor.last_time);
    let eng = EngineV {
        motors: spec_fleet_after(s.rocket_motor.motors, dt_burn),
        last_time: s.time,
        current_thrust: spec_mul(
            spec_fleet_sum(s.rocket_motor.motors, dt_burn, 0, 0),
            s.rocket_motor.throttle_precent,
        ),
        ..s.rocket_motor
    };
    let tvc1 = spec_tvc_actuate(s.tvc, s.tvc_position, s.time_step);
    let tvc2 = TvcV { force: spec_tvc_forces(tvc1.position, eng.current_thrust), ..tvc1 };
    let f = tvc2.force;
    let b1 = BodyV {
        acceleration: spec_vadd(
            b0.acceleration,
            spec_vscale_div(spec_qrotate(b0.rotation, f), b0.mass),
        ),
        ..b0
    };
    let tq = spec_vscale(Vec3 { x: 0i64, y: f.y, z: f.z }, s.tvc_location.x as int);
    let b2 = BodyV {
        rotational_acceleration: spec_vadd(
            b1.rotational_acceleration,
            spec_vdiv(spec_qrotate(b1.rotation, tq), b1.moment_of_inertia),
        ),
        ..b1
    };
    let b3 = spec_body_aero(b2);
    let b4 = BodyV {
        acceleration: spec_vadd(b3.acceleration, spec_vscale_div(b3.drag_force, b3.mass)),
        ..b3
    };
    let dq = spec_vscale(
        Vec3 { x: 0i64, y: b3.drag_force.y, z: b3.drag_force.z },
        DRAG_TORQUE_ARM as int,
    );
    let b5 = BodyV {
        rotational_acceleration: spec_vadd(
            b4.rotational_acceleration,
            spec_vdiv(dq, b4.moment_of_inertia),
        ),
        ..b4
    };
    let b6 = spec_body_update(b5, s.time_step);
    RocketBodyV {
        body: b6,
        rocket_motor: eng,
        tvc: tvc2,
        time: spec_add(s.time, s.time_step),
        ..s
    }
}

/// Once every motor is exhausted, a tick no longer changes the
/// velocity: with the accumulators cleared, no gravity, no pending drag
/// force, a zero drag coefficient and the ground constraint off, the
/// thrust contribution is exactly zero and the vehicle coasts, its
/// position advancing by velocity times the step.  The burnt-out motors
/// persist, inert.
pub proof fn lemma_tick_coasts_after_burnout(s: RocketBodyV)
    requires
        forall|i: int|
            0 <= i < s.rocket_motor.motors.len() ==> (#[trigger] s.rocket_motor.motors[i]).1
                .forces.len() == 0,
        s.body.acceleration == crate::vec3::spec_vzero(),
        s.body.gravity == crate::vec3::spec_vzero(),
        s.body.drag_force == crate::vec3::spec_vzero(),
        s.body.drag_coefficient == 0,
        !s.body.floor,
    ensures
        spec_rocket_tick(s).body.velocity == s.body.velocity,
        spec_rocket_tick(s).body.position == spec_vadd(
            s.body.position,
            spec_vscale(s.body.velocity, s.time_step),
        ),
        forall|i: int|
            0 <= i < s.rocket_motor.motors.len() ==> (#[trigger] spec_rocket_tick(
                s,
            ).rocket_motor.motors[i]).1.forces.len() == 0,
{
    let dt_burn = spec_elapsed(s.time, s.rocket_motor.last_time);
    crate::engine::lemma_fleet_sum_exhausted(s.rocket_motor.motors, dt_burn, 0);
    crate::quat::lemma_mul_zero(s.rocket_motor.throttle_precent);
    let mass = spec_add(s.dry_mass, spec_fleet_weight(s.rocket_motor.motors, 0, 0));
    let b0 = BodyV { mass, ..s.body };
    let tvc1 = spec_tvc_actuate(s.tvc, s.tvc_position, s.time_step);
    // Zero thrust decomposes into the zero force, whatever the
    // deflection.
    crate::quat::lemma_mul_zero(crate::trig::spec_sin(tvc1.position.y as int));
    crate::quat::lemma_mul_zero(crate::trig::spec_sin(tvc1.position.z as int));
    crate::quat::lemma_mul_zero(crate::trig::spec_cos(tvc1.position.y as int));
    crate::quat::lemma_mul_zero(crate::trig::spec_cos(tvc1.position.z as int));
    let f = spec_tvc_forces(tvc1.position, 0);
    assert(f == crate::vec3::spec_vzero());
    crate::quat::lemma_qrotate_zero(b0.rotation);
    let b1 = BodyV {
        acceleration: spec_vadd(
            b0.acceleration,
            spec_vscale_div(spec_qrotate(b0.rotation, f), b0.mass),
        ),
        ..b0
    };
    assert(b1.acceleration == crate::vec3::spec_vzero());
    let tq = spec_vscale(Vec3 { x: 0i64, y: f.y, z: f.z }, s.tvc_location.x as int);
    crate::quat::lemma_mul_zero(s.tvc_location.x as int);
    let b2 = BodyV {
        rotational_acceleration: spec_vadd(
            b1.rotational_acceleration,
            spec_vdiv(spec_qrotate(b1.rotation, tq), b1.moment_of_inertia),
        ),
        ..b1
    };
    // The aerodynamic pass recomputes no drag: the coefficient is zero.
    let b3 = spec_body_aero(b2);
    assert(b3.drag_force == crate::vec3::spec_vzero() && b3.velocity == b2.velocity
        && b3.acceleration == b2.acceleration && b3.gravity == b2.gravity && b3.floor
        == b2.floor && b3.position == b2.position && b3.mass == b2.mass) by {
        let vrw = crate::vec3::spec_vsub(b2.velocity, b2.wind);
        if vrw.x != 0 && vrw.y != 0 && vrw.z != 0 {
            let forward = spec_qrotate(b2.rotation, Vec3 { x: crate::fx::ONE, y: 0i64, z: 0i64 });
            let nn = spec_mul(
                crate::vec3::spec_vnorm(vrw),
                crate::vec3::spec_vnorm(forward),
            );
            if nn != 0 {
                let aoa = crate::vec3::spec_vangle(vrw, forward);
                crate::quat::lemma_mul_zero(aoa);
                let n = crate::vec3::spec_vnorm(b2.velocity);
                crate::quat::lemma_mul_zero(
                    spec_mul(
                        spec_mul(
                            crate::physics::HALF_FX as int,
                            crate::physics::AIR_DENSITY as int,
                        ),
                        spec_mul(n, n),
                    ),
                );
                crate::quat::lemma_mul_zero(b2.drag_area);
                let w = crate::vec3::spec_vneg(crate::vec3::spec_vnormalize(vrw));
                crate::quat::lemma_mul_zero(w.x as int);
                crate::quat::lemma_mul_zero(w.y as int);
                crate::quat::lemma_mul_zero(w.z as int);
            }
        }
    }
    let b4 = BodyV {
        acceleration: spec_vadd(b3.acceleration, spec_vscale_div(b3.drag_force, b3.mass)),
        ..b3
    };
    assert(b4.acceleration == crate::vec3::spec_vzero());
    let dq = spec_vscale(
        Vec3 { x: 0i64, y: b3.drag_force.y, z: b3.drag_force.z },
        DRAG_TORQUE_ARM as int,
    );
    let b5 = BodyV {
        rotational_acceleration: spec_vadd(
            b4.rotational_acceleration,
            spec_vdiv(dq, b4.moment_of_inertia),
        ),
        ..b4
    };
    // The integration step: no acceleration and no gravity leave the
    // velocity exactly where it was.
    let acc = spec_vadd(b5.acceleration, b5.gravity);
    assert(acc == crate::vec3::spec_vzero());
    crate::quat::lemma_mul_zero(s.time_step);
    let velocity = spec_vadd(b5.velocity, spec_vscale(acc, s.time_step));
    assert(velocity == s.body.velocity);
    assert(spec_fleet_after(s.rocket_motor.motors, dt_burn).len()
        == s.rocket_motor.motors.len());
    assert forall|i: int|
        0 <= i < s.rocket_motor.motors.len() implies (#[trigger] spec_fleet_after(
        s.rocket_motor.motors,
        dt_burn,
    )[i]).1.forces.len() == 0 by {
        assert(spec_fleet_after(s.rocket_motor.motors, dt_burn)[i] == (
            s.rocket_motor.motors[i].0,
            crate::motor::spec_motor_after(s.rocket_motor.motors[i].1, dt_burn),
        ));
    }
}

impl RocketBody {
    /// A fresh vehicle: the body starts at rest with the given inertia
    /// and dry mass, the actuator with the given geometry, the motor
    /// collection empty.
    pub fn new(
        time_step: i64,
        dry_mass: i64,
        moment_of_inertia: Vec3,
        servo_speed: i64,
        linkage_ratio: i64,
        travel_min: Vec3,
        travel_max: Vec3,
        tvc_offset: Vec3,
        tvc_location: Vec3,
        max_ignition_delay: i64,
    ) -> (r: RocketBody)
        requires
            dry_mass >= 1,
            moment_of_inertia.x != 0,
            moment_of_inertia.y != 0,
            moment_of_inertia.z != 0,
            linkage_ratio != 0,
            max_ignition_delay >= 0,
        ensures
            rocket_wf(r@),
            r@.time == 0,
            r@.time_step == time_step as int,
            r@.dry_mass == dry_mass as int,
            r@.tvc_location == tvc_location,
            r@.body.moment_of_inertia == moment_of_inertia,
            r@.rocket_motor.motors.len() == 0,
            r@.body.position == crate::vec3::spec_vzero(),
            r@.body.velocity == crate::vec3::spec_vzero(),
            r@.body.rotation == crate::quat::spec_qident(),
            r@.body.gravity == crate::vec3::spec_vzero(),
            r@.body.floor,
            r@.body.mass == dry_mass as int,
            r@.tvc_position == crate::vec3::spec_vzero(),
    {
        let mut body = PhysicsBody::new();
        body.set_moment_of_inertia(moment_of_inertia);
        body.set_mass(dry_mass);
        RocketBody {
            body,
            time: 0,
            time_step,
            tvc: TVC::new(servo_speed, linkage_ratio, travel_min, travel_max, tvc_offset),
            tvc_position: Vec3 { x: 0, y: 0, z: 0 },
            tvc_location,
            reaction_wheel_torque: 0,
            rocket_motor: RocketEngineSystem::new(time_step, max_ignition_delay),
            cp_location: Vec3 { x: 0, y: 0, z: 0 },
            dry_mass,
        }
    }

    /// Add a named motor to the collection.
    pub fn add_motor(&mut self, name: String, motor: Motor)
        requires
            rocket_wf(old(self)@),
            motor_wf(motor@),
        ensures
            rocket_wf(final(self)@),
            final(self)@ == (RocketBodyV {
                rocket_motor: EngineV {
                    motors: old(self)@.rocket_motor.motors.push((name@, motor@)),
                    ..old(self)@.rocket_motor
                },
                ..old(self)@
            }),
    {
        self.rocket_motor.add_motor(name, motor);
    }

    /// Light the motors carrying the given name, each with a random
    /// ignition delay between eighty percent of the configured maximum
    /// and the maximum itself; everything else is untouched.
    pub fn ignite(&mut self, name: &String)
        requires
            rocket_wf(old(self)@),
        ensures
            rocket_wf(final(self)@),
            final(self)@ == (RocketBodyV { rocket_motor: final(self)@.rocket_motor, ..old(self)@ }),
            final(self)@.rocket_motor == (EngineV {
                motors: final(self)@.rocket_motor.motors,
                ..old(self)@.rocket_motor
            }),
            final(self)@.rocket_motor.motors.len() == old(self)@.rocket_motor.motors.len(),
            forall|i: int|
                0 <= i < old(self)@.rocket_motor.motors.len() ==> (#[trigger] final(self)@.rocket_motor.motors[i]).0 == old(self)@.rocket_motor.motors[i].0,
            forall|i: int|
                0 <= i < old(self)@.rocket_motor.motors.len() && old(
                    self,
                )@.rocket_motor.motors[i].0 != name@ ==> (#[trigger] final(self)@.rocket_motor.motors[i]).1 == old(self)@.rocket_motor.motors[i].1,
            forall|i: int|
                0 <= i < old(self)@.rocket_motor.motors.len() && old(
                    self,
                )@.rocket_motor.motors[i].0 == name@ ==> crate::engine::spec_ignited_one(
                    old(self)@.rocket_motor.motors[i].1,
                    (#[trigger] final(self)@.rocket_motor.motors[i]).1,
                    crate::fx::tdiv(old(self)@.rocket_motor.max_ignition_delay * 80, 100),
                    old(self)@.rocket_motor.max_ignition_delay,
                ),
    {
        self.rocket_motor.ignite(name);
    }

    /// Light the motors carrying the given name with the ignition delay
    /// given, instead of a random draw: the deterministic entry that
    /// makes a run reproducible.
    pub fn ignite_with_delay(&mut self, name: &String, delay: i64)
        requires
            rocket_wf(old(self)@),
            delay >= 0,
        ensures
            rocket_wf(final(self)@),
            final(self)@ == (RocketBodyV { rocket_motor: final(self)@.rocket_motor, ..old(self)@ }),
            final(self)@.rocket_motor == (EngineV {
                motors: final(self)@.rocket_motor.motors,
                ..old(self)@.rocket_motor
            }),
            final(self)@.rocket_motor.motors.len() == old(self)@.rocket_motor.motors.len(),
            forall|i: int|
                0 <= i < old(self)@.rocket_motor.motors.len() ==> (#[trigger] final(self)@.rocket_motor.motors[i]).0 == old(self)@.rocket_motor.motors[i].0,
            forall|i: int|
                0 <= i < old(self)@.rocket_motor.motors.len() && old(
                    self,
                )@.rocket_motor.motors[i].0 != name@ ==> (#[trigger] final(self)@.rocket_motor.motors[i]).1 == old(self)@.rocket_motor.motors[i].1,
            forall|i: int|
                0 <= i < old(self)@.rocket_motor.motors.len() && old(
                    self,
                )@.rocket_motor.motors[i].0 == name@ ==> crate::engine::spec_ignited_one(
                    old(self)@.rocket_motor.motors[i].1,
                    (#[trigger] final(self)@.rocket_motor.motors[i]).1,
                    delay as int,
                    delay as int,
                ),
    {
        self.rocket_motor.ignite_with_delay(name, delay);
    }

    /// Command the gimbal angles for the coming ticks.
    pub fn set_tvc_position(&mut self, command: Vec3)
        ensures
            final(self)@ == (RocketBodyV { tvc_position: command, ..old(self)@ }),
    {
        self.tvc_position = command;
    }

    /// One simulation tick, in the fixed stage order.
    pub fn update(&mut self)
        requires
            rocket_wf(old(self)@),
        ensures
            rocket_wf(final(self)@),
            final(self)@ == spec_rocket_tick(old(self)@),
    {
        let total = self.rocket_motor.total_mass();
        let mass = fx_add(self.dry_mass, total);
        self.body.set_mass(mass);
        self.rocket_motor.update(self.time);
        self.tvc.actuate(self.tvc_position, self.time_step);
        let thrust = self.rocket_motor.current_thrust();
        self.tvc.calculate_forces(thrust);
        let f = self.tvc.force();
        self.body.add_force_local(f);
        let tq = Vec3 { x: 0, y: f.y, z: f.z }.scale(self.tvc_location.x);
        proof {
            assert(tq.x == 0);
        }
        self.body.add_torque_local(tq);
        self.body.update_aero();
        let drag = self.body.drag_force();
        self.body.add_force(drag);
        self.body.add_torque(Vec3 { x: 0, y: drag.y, z: drag.z }.scale(DRAG_TORQUE_ARM));
        self.body.update(self.time_step);
        self.time = fx_add(self.time, self.time_step);
    }

    /// Zero the body's force and torque accumulators; call once per
    /// tick after `update`.
    pub fn clear(&mut self)
        ensures
            final(self)@ == (RocketBodyV {
                body: BodyV {
                    acceleration: crate::vec3::spec_vzero(),
                    rotational_acceleration: crate::vec3::spec_vzero(),
                    ..old(self)@.body
                },
                ..old(self)@
            }),
            rocket_wf(old(self)@) ==> rocket_wf(final(self)@),
    {
        self.body.clear();
    }

    /// The simulated time, in fixed-point seconds.
    pub fn get_time_seconds(&self) -> (r: i64)
        ensures
            r as int == self@.time,
    {
        self.time
    }

    /// The simulated time, in fixed-point milliseconds.
    pub fn get_time_milliseconds(&self) -> (r: i64)
        ensures
            r as int == spec_mul(self@.time, MILLIS_FACTOR as int),
    {
        fx_mul(self.time, MILLIS_FACTOR)
    }

    /// The simulated time, in fixed-point microseconds.
    pub fn get_time_microseconds(&self) -> (r: i64)
        ensures
            r as int == spec_mul(self@.time, MICROS_FACTOR as int),
    {
        fx_mul(self.time, MICROS_FACTOR)
    }

    /// The body's position.
    pub fn position(&self) -> (r: Vec3)
        ensures
            r == self@.body.position,
    {
        self.body.position()
    }

    /// The body's velocity.
    pub fn velocity(&self) -> (r: Vec3)
        ensures
            r == self@.body.velocity,
    {
        self.body.velocity()
    }

    /// The body's accumulated acceleration.
    pub fn acceleration(&self) -> (r: Vec3)
        ensures
            r == self@.body.acceleration,
    {
        self.body.acceleration()
    }

    /// The body's current mass.
    pub fn mass(&self) -> (r: i64)
        ensures
            r as int == self@.body.mass,
    {
        self.body.mass()
    }

    /// The thrust of the last tick.
    pub fn current_thrust(&self) -> (r: i64)
        ensures
            r as int == self@.rocket_motor.current_thrust,
    {
        self.rocket_motor.current_thrust()
    }

    /// Point the body's gravity vector.
    pub fn set_gravity(&mut self, gravity: Vec3)
        ensures
            final(self)@ == (RocketBodyV {
                body: BodyV { gravity, ..old(self)@.body },
                ..old(self)@
            }),
            rocket_wf(old(self)@) ==> rocket_wf(final(self)@),
    {
        self.body.set_gravity(gravity);
    }

    /// Switch the body's ground constraint.
    pub fn set_floor(&mut self, floor: bool)
        ensures
            final(self)@ == (RocketBodyV {
                body: BodyV { floor, ..old(self)@.body },
                ..old(self)@
            }),
            rocket_wf(old(self)@) ==> rocket_wf(final(self)@),
    {
        self.body.set_floor(floor);
    }
}

} // verus!
