//! Proportional-integral-derivative controller.
//!
//! The integral accumulator is hard-clamped: an update that would push its
//! magnitude to the configured cap or beyond is rejected outright, it is
//! never rescaled.

use vstd::prelude::*;

use crate::fx::{
    fx_abs, fx_add, fx_div, fx_mul, fx_sub, spec_abs, spec_add, spec_div, spec_mul, spec_sub,
};

verus! {

/// A PID controller.  The gains and the cap are fixed at construction;
/// the working state changes once per `compute` call.
pub struct PID {
    kp: i64,
    ki: i64,
    kd: i64,
    p: i64,
    i: i64,
    d: i64,
    i_max: i64,
    usepnom: bool,
    setpoint: i64,
    last_process: i64,
    current_result: i64,
    error: i64,
}

/// The mathematical state of a PID controller.
pub ghost struct PidV {
    pub kp: int,
    pub ki: int,
    pub kd: int,
    pub p: int,
    pub i: int,
    pub d: int,
    pub i_max: int,
    pub usepnom: bool,
    pub setpoint: int,
    pub last_process: int,
    pub current_result: int,
    pub error: int,
}

impl View for PID {
    type V = PidV;

    closed spec fn view(&self) -> PidV {
        PidV {
            kp: self.kp as int,
            ki: self.ki as int,
            kd: self.kd as int,
            p: self.p as int,
            i: self.i as int,
            d: self.d as int,
            i_max: self.i_max as int,
            usepnom: self.usepnom,
            setpoint: self.setpoint as int,
            last_process: self.last_process as int,
            current_result: self.current_result as int,
            error: self.error as int,
        }
    }
}

/// The state after one `compute` call with the given process value and
/// time step.  Meaningful only for `dt != 0`.
pub open spec fn spec_pid_step(s: PidV, process: int, dt: int) -> PidV {
    let change = spec_sub(process, s.last_process);
    let error = spec_sub(s.setpoint, process);
    let p = if s.usepnom {
        spec_sub(s.p, spec_mul(change, s.kp))
    } else {
        spec_mul(error, s.kp)
    };
    let cand = spec_add(s.i, spec_mul(spec_mul(error, s.ki), dt));
    let i = if spec_abs(cand) < s.i_max {
        cand
    } else {
        s.i
    };
    let d = spec_mul(spec_div(change, dt), s.kd);
    PidV {
        p,
        i,
        d,
        setpoint: s.setpoint,
        last_process: process,
        current_result: spec_sub(spec_add(p, i), d),
        error,
        kp: s.kp,
        ki: s.ki,
        kd: s.kd,
        i_max: s.i_max,
        usepnom: s.usepnom,
    }
}

/// The integral accumulator is zero or strictly below its cap in
/// magnitude.
pub open spec fn integral_ok(s: PidV) -> bool {
    s.i == 0 || spec_abs(s.i) < s.i_max
}

/// The state after a whole sequence of `compute` calls.
pub open spec fn spec_pid_run(s: PidV, inputs: Seq<(int, int)>) -> PidV
    decreases inputs.len(),
{
    if inputs.len() == 0 {
        s
    } else {
        spec_pid_run(spec_pid_step(s, inputs[0].0, inputs[0].1), inputs.drop_first())
    }
}

/// One `compute` call keeps the integral accumulator inside its cap.
pub proof fn lemma_integral_ok_step(s: PidV, process: int, dt: int)
    requires
        integral_ok(s),
    ensures
        integral_ok(spec_pid_step(s, process, dt)),
{
}

/// However long the sequence of `compute` calls, the magnitude of the
/// integral accumulator never exceeds the configured nonnegative cap.
pub proof fn lemma_integral_never_exceeds(s: PidV, inputs: Seq<(int, int)>)
    requires
        integral_ok(s),
        s.i_max >= 0,
    ensures
        spec_abs(spec_pid_run(s, inputs).i) <= s.i_max,
    decreases inputs.len(),
{
    if inputs.len() == 0 {
    } else {
        let s1 = spec_pid_step(s, inputs[0].0, inputs[0].1);
        lemma_integral_ok_step(s, inputs[0].0, inputs[0].1);
        lemma_integral_never_exceeds(s1, inputs.drop_first());
    }
}

impl PID {
    /// A fresh controller with the given gains, setpoint, integral cap
    /// and proportional mode; the working state starts at zero.
    pub fn new(kp: i64, ki: i64, kd: i64, setpoint: i64, i_max: i64, usepnom: bool) -> (r: PID)
        ensures
            r@ == (PidV {
                kp: kp as int,
                ki: ki as int,
                kd: kd as int,
                p: 0,
                i: 0,
                d: 0,
                i_max: i_max as int,
                usepnom,
                setpoint: setpoint as int,
                last_process: 0,
                current_result: 0,
                error: 0,
            }),
            integral_ok(r@),
    {
        PID {
            kp,
            ki,
            kd,
            p: 0,
            i: 0,
            d: 0,
            i_max,
            usepnom,
            setpoint,
            last_process: 0,
            current_result: 0,
            error: 0,
        }
    }

    /// Change the target value.
    pub fn set_setpoint(&mut self, setpoint: i64)
        ensures
            final(self)@ == (PidV { setpoint: setpoint as int, ..old(self)@ }),
    {
        self.setpoint = setpoint;
    }

    /// Reset the integral accumulator to zero.
    pub fn zero_integral(&mut self)
        ensures
            final(self)@ == (PidV { i: 0, ..old(self)@ }),
            integral_ok(final(self)@),
    {
        self.i = 0;
    }

    /// One control step: read the process value, advance the three terms
    /// and the output exactly as `spec_pid_step` lays them out.
    pub fn compute(&mut self, process: i64, dt: i64)
        requires
            dt != 0,
        ensures
            final(self)@ == spec_pid_step(old(self)@, process as int, dt as int),
            integral_ok(old(self)@) ==> integral_ok(final(self)@),
    {
        let change = fx_sub(process, self.last_process);
        self.last_process = process;
        self.error = fx_sub(self.setpoint, process);
        if self.usepnom {
            self.p = fx_sub(self.p, fx_mul(change, self.kp));
        } else {
            self.p = fx_mul(self.error, self.kp);
        }
        let cand = fx_add(self.i, fx_mul(fx_mul(self.error, self.ki), dt));
        if fx_abs(cand) < self.i_max {
            self.i = cand;
        }
        self.d = fx_mul(fx_div(change, dt), self.kd);
        self.current_result = fx_sub(fx_add(self.p, self.i), self.d);
    }

    /// The output of the last `compute` call.
    pub fn output(&self) -> (r: i64)
        ensures
            r as int == self@.current_result,
    {
        self.current_result
    }

    /// The integral accumulator, for observation.
    pub fn integral(&self) -> (r: i64)
        ensures
            r as int == self@.i,
    {
        self.i
    }
}

} // verus!
