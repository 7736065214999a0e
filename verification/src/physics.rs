//! The rigid body: force and torque accumulation, aerodynamic drag, and
//! the fixed-step semi-implicit Euler integrator.
//!
//! Callers accumulate forces and torques during a tick, call `update`
//! once, and then `clear` the accumulators; forces left uncleared
//! compound across ticks by design.

use vstd::prelude::*;

use crate::fx::{fx_mul, spec_mul, ONE};
use crate::quat::{
    lemma_qmul_identity, lemma_qrotate_zero, spec_qaxis_angle, spec_qconj, spec_qident, spec_qmul,
    spec_qrotate, spec_qto_euler, Quaternion,
};
use crate::vec3::{
    spec_vadd, spec_vangle, spec_vdiv, spec_vnorm, spec_vnormalize, spec_vneg, spec_vscale,
    spec_vscale_div, spec_vzero, Vec3,
};

verus! {

/// One half, as a fixed-point scalar.
pub const HALF_FX: i64 = 500_000;

/// Air density at sea level, in fixed-point kilograms per cubic metre.
pub const AIR_DENSITY: i64 = 1_225_000;

/// A rigid body in three-dimensional space.
pub struct PhysicsBody {
    position: Vec3,
    velocity: Vec3,
    acceleration: Vec3,
    acceleration_local: Vec3,
    gravity: Vec3,
    rotation: Quaternion,
    rotation_euler: Vec3,
    rotational_velocity: Vec3,
    rotational_velocity_local: Vec3,
    rotational_acceleration: Vec3,
    mass: i64,
    moment_of_inertia: Vec3,
    floor: bool,
    wind: Vec3,
    drag_force: Vec3,
    drag_area: i64,
    drag_coefficient: i64,
    aoa: i64,
}

/// The mathematical state of a rigid body.
pub ghost struct BodyV {
    pub position: Vec3,
    pub velocity: Vec3,
    pub acceleration: Vec3,
    pub acceleration_local: Vec3,
    pub gravity: Vec3,
    pub rotation: Quaternion,
    pub rotation_euler: Vec3,
    pub rotational_velocity: Vec3,
    pub rotational_velocity_local: Vec3,
    pub rotational_acceleration: Vec3,
    pub mass: int,
    pub moment_of_inertia: Vec3,
    pub floor: bool,
    pub wind: Vec3,
    pub drag_force: Vec3,
    pub drag_area: int,
    pub drag_coefficient: int,
    pub aoa: int,
}

impl View for PhysicsBody {
    type V = BodyV;

    closed spec fn view(&self) -> BodyV {
        BodyV {
            position: self.position,
            velocity: self.velocity,
            acceleration: self.acceleration,
            acceleration_local: self.acceleration_local,
            gravity: self.gravity,
            rotation: self.rotation,
            rotation_euler: self.rotation_euler,
            rotational_velocity: self.rotational_velocity,
            rotational_velocity_local: self.rotational_velocity_local,
            rotational_acceleration: self.rotational_acceleration,
            mass: self.mass as int,
            moment_of_inertia: self.moment_of_inertia,
            floor: self.floor,
            wind: self.wind,
            drag_force: self.drag_force,
            drag_area: self.drag_area as int,
            drag_coefficient: self.drag_coefficient as int,
            aoa: self.aoa as int,
        }
    }
}

/// The body's structural invariant: a nonzero mass, so a force can
/// always be turned into an acceleration.
pub open spec fn body_wf(s: BodyV) -> bool {
    s.mass != 0
}

/// The state after one `update(dt)` tick: body-frame diagnostics,
/// gravity, semi-implicit Euler integration of the translational and
/// rotational state, the incremental body-frame rotation, and the ground
/// constraint.
pub open spec fn spec_body_update(s: BodyV, dt: int) -> BodyV {
    let acceleration_local = spec_qrotate(spec_qconj(s.rotation), s.acceleration);
    let acceleration = spec_vadd(s.acceleration, s.gravity);
    let velocity = spec_vadd(s.velocity, spec_vscale(acceleration, dt));
    let position = spec_vadd(s.position, spec_vscale(velocity, dt));
    let rotational_velocity = spec_vadd(
        s.rotational_velocity,
        spec_vscale(s.rotational_acceleration, dt),
    );
    let norm = spec_vnorm(rotational_velocity);
    let ang = if norm == 0 {
        1
    } else {
        norm
    };
    let incr = spec_qaxis_angle(
        spec_vscale_div(rotational_velocity, ang),
        spec_mul(ang, dt),
    );
    let rotation = spec_qmul(s.rotation, incr);
    let rotation_euler = spec_qto_euler(rotation);
    let rotational_velocity_local = spec_qrotate(spec_qconj(rotation), rotational_velocity);
    let grounded = s.floor && position.x <= 0;
    BodyV {
        position: if grounded {
            Vec3 { x: 0i64, ..position }
        } else {
            position
        },
        velocity: if grounded {
            Vec3 { x: 0i64, ..velocity }
        } else {
            velocity
        },
        acceleration,
        acceleration_local,
        rotation,
        rotation_euler,
        rotational_velocity,
        rotational_velocity_local,
        ..s
    }
}

/// The state after the aerodynamic pass: with a relative wind that is
/// nonzero on every axis and a nondegenerate forward axis, the angle of
/// attack is refreshed; off the ground, the drag force opposing the
/// relative wind is recomputed from dynamic pressure, the scaled drag
/// coefficient and the drag area.  Degenerate inputs leave the fields as
/// they were.
pub open spec fn spec_body_aero(s: BodyV) -> BodyV {
    let vrw = crate::vec3::spec_vsub(s.velocity, s.wind);
    if vrw.x != 0 && vrw.y != 0 && vrw.z != 0 {
        let forward = spec_qrotate(s.rotation, Vec3 { x: ONE, y: 0i64, z: 0i64 });
        let nn = spec_mul(spec_vnorm(vrw), spec_vnorm(forward));
        if nn != 0 {
            let aoa = spec_vangle(vrw, forward);
            let dc = spec_mul(s.drag_coefficient, aoa);
            if !s.floor {
                let n = spec_vnorm(s.velocity);
                let factor = spec_mul(
                    spec_mul(
                        spec_mul(spec_mul(HALF_FX as int, AIR_DENSITY as int), spec_mul(n, n)),
                        dc,
                    ),
                    s.drag_area,
                );
                let drag_force = spec_vscale(spec_vneg(spec_vnormalize(vrw)), factor);
                BodyV { aoa, drag_force, ..s }
            } else {
                BodyV { aoa, ..s }
            }
        } else {
            s
        }
    } else {
        s
    }
}

impl PhysicsBody {
    /// A body at rest at the origin: unit mass, identity orientation,
    /// ground constraint on, everything else zero.
    pub fn new() -> (r: PhysicsBody)
        ensures
            r@ == (BodyV {
                position: spec_vzero(),
                velocity: spec_vzero(),
                acceleration: spec_vzero(),
                acceleration_local: spec_vzero(),
                gravity: spec_vzero(),
                rotation: spec_qident(),
                rotation_euler: spec_vzero(),
                rotational_velocity: spec_vzero(),
                rotational_velocity_local: spec_vzero(),
                rotational_acceleration: spec_vzero(),
                mass: ONE as int,
                moment_of_inertia: spec_vzero(),
                floor: true,
                wind: spec_vzero(),
                drag_force: spec_vzero(),
                drag_area: 0,
                drag_coefficient: 0,
                aoa: 0,
            }),
            body_wf(r@),
    {
        PhysicsBody {
            position: Vec3 { x: 0, y: 0, z: 0 },
            velocity: Vec3 { x: 0, y: 0, z: 0 },
            acceleration: Vec3 { x: 0, y: 0, z: 0 },
            acceleration_local: Vec3 { x: 0, y: 0, z: 0 },
            gravity: Vec3 { x: 0, y: 0, z: 0 },
            rotation: Quaternion { w: ONE, x: 0, y: 0, z: 0 },
            rotation_euler: Vec3 { x: 0, y: 0, z: 0 },
            rotational_velocity: Vec3 { x: 0, y: 0, z: 0 },
            rotational_velocity_local: Vec3 { x: 0, y: 0, z: 0 },
            rotational_acceleration: Vec3 { x: 0, y: 0, z: 0 },
            mass: ONE,
            moment_of_inertia: Vec3 { x: 0, y: 0, z: 0 },
            floor: true,
            wind: Vec3 { x: 0, y: 0, z: 0 },
            drag_force: Vec3 { x: 0, y: 0, z: 0 },
            drag_area: 0,
            drag_coefficient: 0,
            aoa: 0,
        }
    }

    /// Accumulate a global-frame force: the acceleration gains the force
    /// over the mass.
    pub fn add_force(&mut self, force: Vec3)
        requires
            body_wf(old(self)@),
        ensures
            final(self)@ == (BodyV {
                acceleration: spec_vadd(
                    old(self)@.acceleration,
                    spec_vscale_div(force, old(self)@.mass),
                ),
                ..old(self)@
            }),
            body_wf(final(self)@),
    {
        self.acceleration = self.acceleration.add(force.scale_div(self.mass));
    }

    /// Accumulate a global-frame torque: the rotational acceleration
    /// gains the torque over the per-axis moment of inertia.
    pub fn add_torque(&mut self, torque: Vec3)
        requires
            body_wf(old(self)@),
            old(self)@.moment_of_inertia.x != 0,
            old(self)@.moment_of_inertia.y != 0,
            old(self)@.moment_of_inertia.z != 0,
        ensures
            final(self)@ == (BodyV {
                rotational_acceleration: spec_vadd(
                    old(self)@.rotational_acceleration,
                    spec_vdiv(torque, old(self)@.moment_of_inertia),
                ),
                ..old(self)@
            }),
            body_wf(final(self)@),
    {
        self.rotational_acceleration = self.rotational_acceleration.add(
            torque.div(self.moment_of_inertia),
        );
    }

    /// Accumulate a body-frame force: rotate it into the global frame
    /// first.
    pub fn add_force_local(&mut self, force: Vec3)
        requires
            body_wf(old(self)@),
        ensures
            final(self)@ == (BodyV {
                acceleration: spec_vadd(
                    old(self)@.acceleration,
                    spec_vscale_div(
                        spec_qrotate(old(self)@.rotation, force),
                        old(self)@.mass,
                    ),
                ),
                ..old(self)@
            }),
            body_wf(final(self)@),
    {
        let nf = self.rotation.rotate(force);
        self.add_force(nf);
    }

    /// Accumulate a body-frame torque: rotate it into the global frame
    /// first.
    pub fn add_torque_local(&mut self, torque: Vec3)
        requires
            body_wf(old(self)@),
            old(self)@.moment_of_inertia.x != 0,
            old(self)@.moment_of_inertia.y != 0,
            old(self)@.moment_of_inertia.z != 0,
        ensures
            final(self)@ == (BodyV {
                rotational_acceleration: spec_vadd(
                    old(self)@.rotational_acceleration,
                    spec_vdiv(
                        spec_qrotate(old(self)@.rotation, torque),
                        old(self)@.moment_of_inertia,
                    ),
                ),
                ..old(self)@
            }),
            body_wf(final(self)@),
    {
        let nt = self.rotation.rotate(torque);
        self.add_torque(nt);
    }

    /// A global-frame force applied at an offset along the reference
    /// axis: the induced torque is the force scaled by the offset, with
    /// no roll component, and the force itself is accumulated too.
    pub fn add_global_point_force(&mut self, force: Vec3, point: Vec3)
        requires
            body_wf(old(self)@),
            old(self)@.moment_of_inertia.x != 0,
            old(self)@.moment_of_inertia.y != 0,
            old(self)@.moment_of_inertia.z != 0,
        ensures
            final(self)@ == (BodyV {
                rotational_acceleration: spec_vadd(
                    old(self)@.rotational_acceleration,
                    spec_vdiv(
                        Vec3 { x: 0i64, ..spec_vscale(force, point.x as int) },
                        old(self)@.moment_of_inertia,
                    ),
                ),
                acceleration: spec_vadd(
                    old(self)@.acceleration,
                    spec_vscale_div(force, old(self)@.mass),
                ),
                ..old(self)@
            }),
            body_wf(final(self)@),
    {
        let scaled = force.scale(point.x);
        let torque = Vec3 { x: 0, y: scaled.y, z: scaled.z };
        proof {
            assert(torque == (Vec3 { x: 0i64, ..spec_vscale(force, point.x as int) }));
        }
        self.add_torque(torque);
        self.add_force(force);
    }

    /// A body-frame force applied at an offset: rotate the force into
    /// the global frame first.
    pub fn add_local_point_force(&mut self, force: Vec3, point: Vec3)
        requires
            body_wf(old(self)@),
            old(self)@.moment_of_inertia.x != 0,
            old(self)@.moment_of_inertia.y != 0,
            old(self)@.moment_of_inertia.z != 0,
        ensures
            final(self)@ == (BodyV {
                rotational_acceleration: spec_vadd(
                    old(self)@.rotational_acceleration,
                    spec_vdiv(
                        Vec3 {
                            x: 0i64,
                            ..spec_vscale(
                                spec_qrotate(old(self)@.rotation, force),
                                point.x as int,
                            )
                        },
                        old(self)@.moment_of_inertia,
                    ),
                ),
                acceleration: spec_vadd(
                    old(self)@.acceleration,
                    spec_vscale_div(
                        spec_qrotate(old(self)@.rotation, force),
                        old(self)@.mass,
                    ),
                ),
                ..old(self)@
            }),
            body_wf(final(self)@),
    {
        let nf = self.rotation.rotate(force);
        self.add_global_point_force(nf, point);
    }

    /// Refresh the angle of attack and, off the ground, the drag force.
    /// The drag is only computed here; callers apply it explicitly.
    pub fn update_aero(&mut self)
        ensures
            final(self)@ == spec_body_aero(old(self)@),
    {
        let vrw = self.velocity.sub(self.wind);
        if vrw.x != 0 && vrw.y != 0 && vrw.z != 0 {
            let forward = self.rotation.rotate(Vec3 { x: ONE, y: 0, z: 0 });
            let nvrw = vrw.norm();
            let nfwd = forward.norm();
            let nn = fx_mul(nvrw, nfwd);
            if nn != 0 {
                self.aoa = vrw.angle_between(forward);
                let dc = fx_mul(self.drag_coefficient, self.aoa);
                if !self.floor {
                    proof {
                        lemma_nonzero_axes_norm_pos(vrw);
                    }
                    let n = self.velocity.norm();
                    let factor = fx_mul(
                        fx_mul(fx_mul(fx_mul(HALF_FX, AIR_DENSITY), fx_mul(n, n)), dc),
                        self.drag_area,
                    );
                    self.drag_force = vrw.normalize().neg().scale(factor);
                }
            }
        }
    }

    /// One integration tick.
    pub fn update(&mut self, dt: i64)
        ensures
            final(self)@ == spec_body_update(old(self)@, dt as int),
    {
        self.acceleration_local = self.rotation.conj().rotate(self.acceleration);
        self.acceleration = self.acceleration.add(self.gravity);
        self.velocity = self.velocity.add(self.acceleration.scale(dt));
        self.position = self.position.add(self.velocity.scale(dt));
        self.rotational_velocity = self.rotational_velocity.add(
            self.rotational_acceleration.scale(dt),
        );
        let mut ang = self.rotational_velocity.norm();
        if ang == 0 {
            // A vanishing rotation rate would make the axis division
            // degenerate; one fixed-point unit stands in, and the
            // incremental rotation is effectively the identity.
            ang = 1;
        }
        proof {
            crate::vec3::lemma_vnorm_nonneg(self@.rotational_velocity);
        }
        let incr = Quaternion::from_axis_angle(
            self.rotational_velocity.scale_div(ang),
            fx_mul(ang, dt),
        );
        self.rotation = self.rotation.mul(incr);
        self.rotation_euler = self.rotation.to_euler();
        self.rotational_velocity_local = self.rotation.conj().rotate(self.rotational_velocity);
        if self.floor && self.position.x <= 0 {
            self.position.x = 0;
            self.velocity.x = 0;
        }
    }

    /// Set the mass; a body must never be massless.
    pub fn set_mass(&mut self, mass: i64)
        requires
            mass != 0,
        ensures
            final(self)@ == (BodyV { mass: mass as int, ..old(self)@ }),
            body_wf(final(self)@),
    {
        self.mass = mass;
    }

    /// Set the gravity acceleration vector.
    pub fn set_gravity(&mut self, gravity: Vec3)
        ensures
            final(self)@ == (BodyV { gravity, ..old(self)@ }),
    {
        self.gravity = gravity;
    }

    /// Set the ambient wind velocity.
    pub fn set_wind(&mut self, wind: Vec3)
        ensures
            final(self)@ == (BodyV { wind, ..old(self)@ }),
    {
        self.wind = wind;
    }

    /// Set the drag reference area.
    pub fn set_drag_area(&mut self, drag_area: i64)
        ensures
            final(self)@ == (BodyV { drag_area: drag_area as int, ..old(self)@ }),
    {
        self.drag_area = drag_area;
    }

    /// Set the base drag coefficient.
    pub fn set_drag_coefficient(&mut self, drag_coefficient: i64)
        ensures
            final(self)@ == (BodyV {
                drag_coefficient: drag_coefficient as int,
                ..old(self)@
            }),
    {
        self.drag_coefficient = drag_coefficient;
    }

    /// Switch the ground constraint on or off.
    pub fn set_floor(&mut self, floor: bool)
        ensures
            final(self)@ == (BodyV { floor, ..old(self)@ }),
    {
        self.floor = floor;
    }

    /// Set the per-axis moment of inertia.
    pub fn set_moment_of_inertia(&mut self, moment_of_inertia: Vec3)
        ensures
            final(self)@ == (BodyV { moment_of_inertia, ..old(self)@ }),
    {
        self.moment_of_inertia = moment_of_inertia;
    }

    /// Set the position.
    pub fn set_position(&mut self, position: Vec3)
        ensures
            final(self)@ == (BodyV { position, ..old(self)@ }),
    {
        self.position = position;
    }

    /// Set the velocity.
    pub fn set_velocity(&mut self, velocity: Vec3)
        ensures
            final(self)@ == (BodyV { velocity, ..old(self)@ }),
    {
        self.velocity = velocity;
    }

    /// Set the orientation quaternion.
    pub fn set_rotation(&mut self, rotation: Quaternion)
        ensures
            final(self)@ == (BodyV { rotation, ..old(self)@ }),
    {
        self.rotation = rotation;
    }

    /// Set the angular velocity.
    pub fn set_rotational_velocity(&mut self, rotational_velocity: Vec3)
        ensures
            final(self)@ == (BodyV { rotational_velocity, ..old(self)@ }),
    {
        self.rotational_velocity = rotational_velocity;
    }

    /// The position.
    pub fn position(&self) -> (r: Vec3)
        ensures
            r == self@.position,
    {
        self.position
    }

    /// The velocity.
    pub fn velocity(&self) -> (r: Vec3)
        ensures
            r == self@.velocity,
    {
        self.velocity
    }

    /// The accumulated acceleration.
    pub fn acceleration(&self) -> (r: Vec3)
        ensures
            r == self@.acceleration,
    {
        self.acceleration
    }

    /// The body-frame acceleration cache.
    pub fn acceleration_local(&self) -> (r: Vec3)
        ensures
            r == self@.acceleration_local,
    {
        self.acceleration_local
    }

    /// The orientation quaternion.
    pub fn rotation(&self) -> (r: Quaternion)
        ensures
            r == self@.rotation,
    {
        self.rotation
    }

    /// The Euler-angle cache of the orientation.
    pub fn rotation_euler(&self) -> (r: Vec3)
        ensures
            r == self@.rotation_euler,
    {
        self.rotation_euler
    }

    /// The angular velocity.
    pub fn rotational_velocity(&self) -> (r: Vec3)
        ensures
            r == self@.rotational_velocity,
    {
        self.rotational_velocity
    }

    /// The accumulated rotational acceleration.
    pub fn rotational_acceleration(&self) -> (r: Vec3)
        ensures
            r == self@.rotational_acceleration,
    {
        self.rotational_acceleration
    }

    /// The mass.
    pub fn mass(&self) -> (r: i64)
        ensures
            r as int == self@.mass,
    {
        self.mass
    }

    /// The gravity acceleration vector.
    pub fn gravity(&self) -> (r: Vec3)
        ensures
            r == self@.gravity,
    {
        self.gravity
    }

    /// The last computed drag force.
    pub fn drag_force(&self) -> (r: Vec3)
        ensures
            r == self@.drag_force,
    {
        self.drag_force
    }

    /// The last computed angle of attack.
    pub fn aoa(&self) -> (r: i64)
        ensures
            r as int == self@.aoa,
    {
        self.aoa
    }

    /// Zero the force and torque accumulators; call once per tick after
    /// integrating.
    pub fn clear(&mut self)
        ensures
            final(self)@ == (BodyV {
                acceleration: spec_vzero(),
                rotational_acceleration: spec_vzero(),
                ..old(self)@
            }),
    {
        self.acceleration = Vec3 { x: 0, y: 0, z: 0 };
        self.rotational_acceleration = Vec3 { x: 0, y: 0, z: 0 };
    }
}

/// A body at rest: no velocity, no rotation rate, empty force and
/// torque accumulators, no gravity, and not below the ground plane when
/// the ground constraint is on.
pub open spec fn at_rest(s: BodyV) -> bool {
    &&& s.velocity == spec_vzero()
    &&& s.rotational_velocity == spec_vzero()
    &&& s.acceleration == spec_vzero()
    &&& s.rotational_acceleration == spec_vzero()
    &&& s.gravity == spec_vzero()
    &&& s.floor ==> s.position.x >= 0
}

/// The cosine of a tiny nonnegative angle is exactly one in fixed
/// point.
proof fn lemma_small_cos_one(x: int)
    requires
        0 <= x <= 500,
    ensures
        crate::trig::spec_cos(x) == ONE as int,
{
    assert(x % (crate::trig::TWO_PI as int) == x) by (nonlinear_arith)
        requires
            0 <= x < 6_283_185,
    ;
    assert(0 <= x * x < 1_000_000) by (nonlinear_arith)
        requires
            0 <= x <= 500,
    ;
    if x * x > 0 {
        assert((x * x) / 1_000_000 == 0) by (nonlinear_arith)
            requires
                0 < x * x < 1_000_000,
        ;
    }
    assert(spec_mul(x, x) == 0);
}

/// The axis-angle quaternion of the zero axis and a tiny nonnegative
/// angle is exactly the identity.
proof fn lemma_axis_angle_tiny(angle: int)
    requires
        0 <= angle <= 1000,
    ensures
        spec_qaxis_angle(spec_vzero(), angle) == spec_qident(),
{
    let half = crate::fx::spec_divi(angle, 2);
    assert(crate::fx::tdiv(angle, 2) == angle / 2);
    assert(0 <= angle / 2 <= 500) by (nonlinear_arith)
        requires
            0 <= angle <= 1000,
    ;
    lemma_small_cos_one(half);
    crate::quat::lemma_mul_zero(crate::trig::spec_sin(half));
}

/// One tick moves nothing on a body at rest with no gravity: position,
/// orientation, velocity and rotation rate are exactly preserved, and
/// the body stays at rest.  The tick must be a nonnegative time below a
/// thousand seconds, so that the stand-in rotation angle for the zero
/// rotation rate collapses to the identity exactly.
pub proof fn lemma_update_at_rest(s: BodyV, dt: int)
    requires
        at_rest(s),
        0 <= dt <= 1_000_000_000,
    ensures
        spec_body_update(s, dt).position == s.position,
        spec_body_update(s, dt).rotation == s.rotation,
        spec_body_update(s, dt).velocity == s.velocity,
        spec_body_update(s, dt).rotational_velocity == s.rotational_velocity,
        at_rest(spec_body_update(s, dt)),
        spec_body_update(s, dt).floor == s.floor,
        spec_body_update(s, dt).mass == s.mass,
        spec_body_update(s, dt).gravity == s.gravity,
{
    crate::quat::lemma_mul_zero(dt);
    let rv = spec_vadd(s.rotational_velocity, spec_vscale(s.rotational_acceleration, dt));
    assert(rv == spec_vzero());
    let acceleration = spec_vadd(s.acceleration, s.gravity);
    assert(acceleration == spec_vzero());
    let velocity = spec_vadd(s.velocity, spec_vscale(acceleration, dt));
    assert(velocity == spec_vzero());
    let position = spec_vadd(s.position, spec_vscale(velocity, dt));
    assert(position == s.position);
    assert(spec_vnorm(rv) == 0);
    let angle = spec_mul(1, dt);
    assert(crate::fx::tdiv(1 * dt, 1_000_000) == if dt == 0 {
        0
    } else {
        dt / 1_000_000
    });
    assert(0 <= dt / 1_000_000 <= 1000) by (nonlinear_arith)
        requires
            0 <= dt <= 1_000_000_000,
    ;
    let axis = spec_vscale_div(rv, 1);
    assert(axis == spec_vzero());
    lemma_axis_angle_tiny(angle);
    lemma_qmul_identity(s.rotation);
    let rotation = spec_qmul(s.rotation, spec_qaxis_angle(axis, angle));
    assert(rotation == s.rotation);
    lemma_qrotate_zero(spec_qconj(s.rotation));
    lemma_qrotate_zero(spec_qconj(rotation));
}

/// The state after `n` ticks of length `dt`.
pub open spec fn spec_body_update_n(s: BodyV, dt: int, n: nat) -> BodyV
    decreases n,
{
    if n == 0 {
        s
    } else {
        spec_body_update(spec_body_update_n(s, dt, (n - 1) as nat), dt)
    }
}

/// A body at rest under no gravity is unchanged after any number of
/// ticks: there is no integration drift from nothing.
pub proof fn lemma_rest_unchanged_n_ticks(s: BodyV, dt: int, n: nat)
    requires
        at_rest(s),
        0 <= dt <= 1_000_000_000,
    ensures
        spec_body_update_n(s, dt, n).position == s.position,
        spec_body_update_n(s, dt, n).rotation == s.rotation,
        spec_body_update_n(s, dt, n).velocity == s.velocity,
        spec_body_update_n(s, dt, n).rotational_velocity == s.rotational_velocity,
        at_rest(spec_body_update_n(s, dt, n)),
    decreases n,
{
    if n > 0 {
        lemma_rest_unchanged_n_ticks(s, dt, (n - 1) as nat);
        lemma_update_at_rest(spec_body_update_n(s, dt, (n - 1) as nat), dt);
    }
}

/// A vector with no zero component has a positive norm.
proof fn lemma_nonzero_axes_norm_pos(v: Vec3)
    requires
        v.x != 0,
        v.y != 0,
        v.z != 0,
    ensures
        spec_vnorm(v) > 0,
{
    assert(v.x as int * v.x as int >= 1 && v.y as int * v.y as int >= 1 && v.z as int * v.z as int
        >= 1) by (nonlinear_arith)
        requires
            v.x as int != 0,
            v.y as int != 0,
            v.z as int != 0,
    ;
    let n = crate::vec3::spec_vnorm_sq(v);
    assert(n >= 3);
    crate::fx::lemma_sqrt_floor_bounds(n);
    let r = crate::fx::sqrt_floor(n);
    if r <= 0 {
        assert((r + 1) * (r + 1) <= 1) by (nonlinear_arith)
            requires
                0 <= r <= 0,
        ;
        assert(false);
    }
}

} // verus!
