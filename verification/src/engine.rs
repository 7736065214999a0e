//! A named collection of motors fired together: ignition by name,
//! per-tick thrust summation under a throttle, and the total motor mass.

use vstd::prelude::*;

use crate::fx::{fx_add, fx_mul, fx_sub, spec_add, spec_mul, spec_sub, ONE};
use crate::motor::{
    motor_wf, spec_motor_after, spec_motor_thrust, spec_motor_weight, Motor, MotorV,
};

verus! {

/// The motor collection of one vehicle.
pub struct RocketEngineSystem {
    motors: Vec<(String, Motor)>,
    time_step: i64,
    max_ignition_delay: i64,
    last_time: i64,
    throttle_precent: i64,
    current_thrust: i64,
}

/// The mathematical state of the motor collection.
pub ghost struct EngineV {
    pub motors: Seq<(Seq<char>, MotorV)>,
    pub time_step: int,
    pub max_ignition_delay: int,
    pub last_time: int,
    pub throttle_precent: int,
    pub current_thrust: int,
}

impl View for RocketEngineSystem {
    type V = EngineV;

    closed spec fn view(&self) -> EngineV {
        EngineV {
            motors: self.motors@.map_values(|p: (String, Motor)| (p.0@, p.1@)),
            time_step: self.time_step as int,
            max_ignition_delay: self.max_ignition_delay as int,
            last_time: self.last_time as int,
            throttle_precent: self.throttle_precent as int,
            current_thrust: self.current_thrust as int,
        }
    }
}

/// The collection's structural invariant: a nonnegative ignition delay
/// bound and every motor well formed.
pub open spec fn engines_wf(s: EngineV) -> bool {
    &&& s.max_ignition_delay >= 0
    &&& forall|i: int| 0 <= i < s.motors.len() ==> motor_wf((#[trigger] s.motors[i]).1)
}

/// Every motor advanced by the same burn time.
pub open spec fn spec_fleet_after(ms: Seq<(Seq<char>, MotorV)>, dt: int) -> Seq<
    (Seq<char>, MotorV),
> {
    ms.map_values(|p: (Seq<char>, MotorV)| (p.0, spec_motor_after(p.1, dt)))
}

/// The saturating sum of the thrusts of the motors from index `i` on;
/// an exhausted motor contributes zero.
pub open spec fn spec_fleet_sum(ms: Seq<(Seq<char>, MotorV)>, dt: int, i: int, acc: int) -> int
    decreases ms.len() - i,
{
    if i < 0 || i >= ms.len() {
        acc
    } else {
        spec_fleet_sum(ms, dt, i + 1, spec_add(acc, spec_motor_thrust(ms[i].1, dt) as int))
    }
}

/// A fleet of exhausted motors yields no thrust at all.
pub proof fn lemma_fleet_sum_exhausted(ms: Seq<(Seq<char>, MotorV)>, dt: int, i: int)
    requires
        forall|k: int| 0 <= k < ms.len() ==> (#[trigger] ms[k]).1.forces.len() == 0,
    ensures
        spec_fleet_sum(ms, dt, i, 0) == 0,
    decreases ms.len() - i,
{
    if i < 0 || i >= ms.len() {
    } else {
        assert(spec_motor_thrust(ms[i].1, dt) == 0i64);
        lemma_fleet_sum_exhausted(ms, dt, i + 1);
    }
}

/// The saturating sum of the masses of the motors from index `i` on.
pub open spec fn spec_fleet_weight(ms: Seq<(Seq<char>, MotorV)>, i: int, acc: int) -> int
    decreases ms.len() - i,
{
    if i < 0 || i >= ms.len() {
        acc
    } else {
        spec_fleet_weight(ms, i + 1, spec_add(acc, spec_motor_weight(ms[i].1)))
    }
}

/// The effect of one ignition command on one motor: untouched when it
/// is already lit or burnt out, otherwise lit with an ignition delay in
/// the stated band and nothing else changed.
pub open spec fn spec_ignited_one(before: MotorV, after: MotorV, lo: int, hi: int) -> bool {
    if before.lit || before.forces.len() == 0 {
        after == before
    } else {
        &&& after.lit
        &&& lo <= after.delay_left <= hi
        &&& after == (MotorV { lit: true, delay_left: after.delay_left, ..before })
    }
}

/// The effective burn time of an update call: the time elapsed since
/// the last call, never negative.
pub open spec fn spec_elapsed(time: int, last_time: int) -> int {
    let d = spec_sub(time, last_time);
    if d < 0 {
        0
    } else {
        d
    }
}

impl RocketEngineSystem {
    /// An empty collection with the given interpolation step and
    /// maximum ignition delay; full throttle, no thrust yet.
    pub fn new(time_step: i64, max_ignition_delay: i64) -> (r: RocketEngineSystem)
        requires
            max_ignition_delay >= 0,
        ensures
            r@ == (EngineV {
                motors: Seq::<(Seq<char>, MotorV)>::empty(),
                time_step: time_step as int,
                max_ignition_delay: max_ignition_delay as int,
                last_time: 0,
                throttle_precent: ONE as int,
                current_thrust: 0,
            }),
            engines_wf(r@),
    {
        let r = RocketEngineSystem {
            motors: Vec::new(),
            time_step,
            max_ignition_delay,
            last_time: 0,
            throttle_precent: ONE,
            current_thrust: 0,
        };
        proof {
            assert(r.motors@.map_values(|p: (String, Motor)| (p.0@, p.1@)) =~= Seq::<
                (Seq<char>, MotorV),
            >::empty());
        }
        r
    }

    /// Add a motor after the others, under a name.
    pub fn add_motor(&mut self, name: String, motor: Motor)
        requires
            motor_wf(motor@),
            engines_wf(old(self)@),
        ensures
            final(self)@ == (EngineV {
                motors: old(self)@.motors.push((name@, motor@)),
                ..old(self)@
            }),
            engines_wf(final(self)@),
    {
        let ghost gname = name@;
        let ghost gmotor = motor@;
        self.motors.push((name, motor));
        proof {
            assert(self.motors@.map_values(|p: (String, Motor)| (p.0@, p.1@)) =~= old(
                self,
            )@.motors.push((gname, gmotor)));
        }
    }

    /// Light every motor carrying the given name, each with a random
    /// ignition delay between eighty percent of the configured maximum
    /// and the maximum itself.  Names and all other motors are
    /// untouched; a lit or burnt-out motor stays as it was.
    pub fn ignite(&mut self, name: &String)
        requires
            engines_wf(old(self)@),
        ensures
            engines_wf(final(self)@),
            final(self)@.motors.len() == old(self)@.motors.len(),
            forall|i: int|
                0 <= i < old(self)@.motors.len() ==> (#[trigger] final(self)@.motors[i]).0 == old(
                    self,
                )@.motors[i].0,
            forall|i: int|
                0 <= i < old(self)@.motors.len() && old(self)@.motors[i].0 != name@ ==> (
                #[trigger] final(self)@.motors[i]).1 == old(self)@.motors[i].1,
            forall|i: int|
                0 <= i < old(self)@.motors.len() && old(self)@.motors[i].0 == name@
                    ==> spec_ignited_one(
                    old(self)@.motors[i].1,
                    (#[trigger] final(self)@.motors[i]).1,
                    crate::fx::tdiv(old(self)@.max_ignition_delay * 80, 100),
                    old(self)@.max_ignition_delay,
                ),
            final(self)@ == (EngineV { motors: final(self)@.motors, ..old(self)@ }),
    {
        let ghost oldv = self@;
        let n = self.motors.len();
        let mut i: usize = 0;
        while i < n
            invariant
                0 <= i <= n,
                n == self.motors@.len(),
                self.motors@.len() == oldv.motors.len(),
                self@ == (EngineV { motors: self@.motors, ..oldv }),
                engines_wf(self@),
                self.max_ignition_delay as int == oldv.max_ignition_delay,
                forall|k: int|
                    0 <= k < oldv.motors.len() ==> (#[trigger] self@.motors[k]).0
                        == oldv.motors[k].0,
                forall|k: int|
                    i <= k < oldv.motors.len() ==> (#[trigger] self@.motors[k]).1
                        == oldv.motors[k].1,
                forall|k: int|
                    0 <= k < i && oldv.motors[k].0 != name@ ==> (#[trigger] self@.motors[k]).1
                        == oldv.motors[k].1,
                forall|k: int|
                    0 <= k < i && oldv.motors[k].0 == name@ ==> spec_ignited_one(
                        oldv.motors[k].1,
                        (#[trigger] self@.motors[k]).1,
                        crate::fx::tdiv(oldv.max_ignition_delay * 80, 100),
                        oldv.max_ignition_delay,
                    ),
            decreases n - i,
        {
            let ghost before = self.motors@;
            let (mname, mut motor) = self.motors.remove(i);
            proof {
                assert(before.map_values(|p: (String, Motor)| (p.0@, p.1@))[i as int] == (
                    before[i as int].0@,
                    before[i as int].1@,
                ));
                assert(motor@ == oldv.motors[i as int].1);
                assert(motor_wf(motor@));
            }
            let matches_name = mname == *name;
            if matches_name {
                motor.light_random(self.max_ignition_delay);
            }
            self.motors.insert(i, (mname, motor));
            proof {
                assert(self.motors@.map_values(|p: (String, Motor)| (p.0@, p.1@)) =~= before
                    .map_values(|p: (String, Motor)| (p.0@, p.1@)).update(
                    i as int,
                    (before[i as int].0@, motor@),
                ));
            }
            i = i + 1;
        }
    }

    /// Light every motor carrying the given name with the ignition
    /// delay given, instead of a random draw: the deterministic entry
    /// that makes a run reproducible.  Names and all other motors are
    /// untouched; a lit or burnt-out motor stays as it was.
    pub fn ignite_with_delay(&mut self, name: &String, delay: i64)
        requires
            engines_wf(old(self)@),
            delay >= 0,
        ensures
            engines_wf(final(self)@),
            final(self)@.motors.len() == old(self)@.motors.len(),
            forall|i: int|
                0 <= i < old(self)@.motors.len() ==> (#[trigger] final(self)@.motors[i]).0 == old(
                    self,
                )@.motors[i].0,
            forall|i: int|
                0 <= i < old(self)@.motors.len() && old(self)@.motors[i].0 != name@ ==> (
                #[trigger] final(self)@.motors[i]).1 == old(self)@.motors[i].1,
            forall|i: int|
                0 <= i < old(self)@.motors.len() && old(self)@.motors[i].0 == name@
                    ==> spec_ignited_one(
                    old(self)@.motors[i].1,
                    (#[trigger] final(self)@.motors[i]).1,
                    delay as int,
                    delay as int,
                ),
            final(self)@ == (EngineV { motors: final(self)@.motors, ..old(self)@ }),
    {
        let ghost oldv = self@;
        let n = self.motors.len();
        let mut i: usize = 0;
        while i < n
            invariant
                0 <= i <= n,
                n == self.motors@.len(),
                self.motors@.len() == oldv.motors.len(),
                self@ == (EngineV { motors: self@.motors, ..oldv }),
                engines_wf(self@),
                delay >= 0,
                forall|k: int|
                    0 <= k < oldv.motors.len() ==> (#[trigger] self@.motors[k]).0
                        == oldv.motors[k].0,
                forall|k: int|
                    i <= k < oldv.motors.len() ==> (#[trigger] self@.motors[k]).1
                        == oldv.motors[k].1,
                forall|k: int|
                    0 <= k < i && oldv.motors[k].0 != name@ ==> (#[trigger] self@.motors[k]).1
                        == oldv.motors[k].1,
                forall|k: int|
                    0 <= k < i && oldv.motors[k].0 == name@ ==> spec_ignited_one(
                        oldv.motors[k].1,
                        (#[trigger] self@.motors[k]).1,
                        delay as int,
                        delay as int,
                    ),
            decreases n - i,
        {
            let ghost before = self.motors@;
            let (mname, mut motor) = self.motors.remove(i);
            proof {
                assert(before.map_values(|p: (String, Motor)| (p.0@, p.1@))[i as int] == (
                    before[i as int].0@,
                    before[i as int].1@,
                ));
                assert(motor@ == oldv.motors[i as int].1);
                assert(motor_wf(motor@));
            }
            let matches_name = mname == *name;
            if matches_name {
                motor.light(delay);
            }
            self.motors.insert(i, (mname, motor));
            proof {
                assert(self.motors@.map_values(|p: (String, Motor)| (p.0@, p.1@)) =~= before
                    .map_values(|p: (String, Motor)| (p.0@, p.1@)).update(
                    i as int,
                    (before[i as int].0@, motor@),
                ));
            }
            i = i + 1;
        }
    }

    /// One tick: burn the time elapsed since the last call on every
    /// motor, and take as the current thrust the saturating sum of their
    /// thrusts scaled by the throttle.
    pub fn update(&mut self, time: i64)
        requires
            engines_wf(old(self)@),
        ensures
            engines_wf(final(self)@),
            final(self)@ == (EngineV {
                motors: spec_fleet_after(
                    old(self)@.motors,
                    spec_elapsed(time as int, old(self)@.last_time),
                ),
                last_time: time as int,
                current_thrust: spec_mul(
                    spec_fleet_sum(
                        old(self)@.motors,
                        spec_elapsed(time as int, old(self)@.last_time),
                        0,
                        0,
                    ),
                    old(self)@.throttle_precent,
                ),
                ..old(self)@
            }),
    {
        let ghost oldv = self@;
        let mut dt = fx_sub(time, self.last_time);
        if dt < 0 {
            dt = 0;
        }
        let ghost gdt = dt as int;
        let n = self.motors.len();
        let mut sum: i64 = 0;
        let mut i: usize = 0;
        while i < n
            invariant
                0 <= i <= n,
                n == self.motors@.len(),
                self.motors@.len() == oldv.motors.len(),
                dt >= 0,
                gdt == dt as int,
                gdt == spec_elapsed(time as int, oldv.last_time),
                self@ == (EngineV { motors: self@.motors, ..oldv }),
                engines_wf(self@),
                forall|k: int|
                    0 <= k < i ==> (#[trigger] self@.motors[k]) == (
                    oldv.motors[k].0,
                    spec_motor_after(oldv.motors[k].1, gdt),
                ),
                forall|k: int|
                    i <= k < oldv.motors.len() ==> (#[trigger] self@.motors[k]) == oldv.motors[k],
                spec_fleet_sum(oldv.motors, gdt, 0, 0) == spec_fleet_sum(
                    oldv.motors,
                    gdt,
                    i as int,
                    sum as int,
                ),
            decreases n - i,
        {
            let ghost before = self.motors@;
            let (mname, mut motor) = self.motors.remove(i);
            proof {
                assert(before.map_values(|p: (String, Motor)| (p.0@, p.1@))[i as int] == (
                    before[i as int].0@,
                    before[i as int].1@,
                ));
                assert(motor@ == oldv.motors[i as int].1);
                assert(motor_wf(motor@));
            }
            let thrust = motor.thrust_for(dt);
            sum = fx_add(sum, thrust);
            self.motors.insert(i, (mname, motor));
            proof {
                assert(self.motors@.map_values(|p: (String, Motor)| (p.0@, p.1@)) =~= before
                    .map_values(|p: (String, Motor)| (p.0@, p.1@)).update(
                    i as int,
                    (before[i as int].0@, motor@),
                ));
            }
            i = i + 1;
        }
        self.current_thrust = fx_mul(sum, self.throttle_precent);
        self.last_time = time;
        proof {
            assert(self@.motors =~= spec_fleet_after(oldv.motors, gdt));
        }
    }

    /// Set the throttle: the thrust fraction kept is one minus the cut
    /// fraction given.
    pub fn throttle(&mut self, percent: i64)
        ensures
            final(self)@ == (EngineV {
                throttle_precent: spec_sub(ONE as int, percent as int),
                ..old(self)@
            }),
    {
        self.throttle_precent = fx_sub(ONE, percent);
    }

    /// The saturating sum of the current masses of all motors.
    pub fn total_mass(&self) -> (r: i64)
        requires
            engines_wf(self@),
        ensures
            r as int == spec_fleet_weight(self@.motors, 0, 0),
            r >= 0,
    {
        let n = self.motors.len();
        let mut acc: i64 = 0;
        let mut i: usize = 0;
        while i < n
            invariant
                0 <= i <= n,
                n == self.motors@.len(),
                engines_wf(self@),
                acc >= 0,
                spec_fleet_weight(self@.motors, 0, 0) == spec_fleet_weight(
                    self@.motors,
                    i as int,
                    acc as int,
                ),
            decreases n - i,
        {
            proof {
                crate::motor::lemma_weight_nonneg(self@.motors[i as int].1);
            }
            let w = self.motors[i].1.weight();
            acc = fx_add(acc, w);
            i = i + 1;
        }
        acc
    }

    /// The thrust computed by the last `update` call.
    pub fn current_thrust(&self) -> (r: i64)
        ensures
            r as int == self@.current_thrust,
    {
        self.current_thrust
    }

    /// The time of the last `update` call.
    pub fn last_time(&self) -> (r: i64)
        ensures
            r as int == self@.last_time,
    {
        self.last_time
    }
}

} // verus!
