//! Full-state-feedback controller: a stateless feedback law over the
//! orientation and its rate.

use vstd::prelude::*;

use crate::fx::{fx_add, fx_mul, fx_neg, fx_sub, spec_add, spec_mul, spec_neg, spec_sub};

verus! {

/// A full-state-feedback controller.
pub struct FSF {
    gain_a: i64,
    gain_b: i64,
    setpoint: i64,
    last_ori: i64,
    output: i64,
}

/// The mathematical state of a full-state-feedback controller.
pub ghost struct FsfV {
    pub gain_a: int,
    pub gain_b: int,
    pub setpoint: int,
    pub last_ori: int,
    pub output: int,
}

impl View for FSF {
    type V = FsfV;

    closed spec fn view(&self) -> FsfV {
        FsfV {
            gain_a: self.gain_a as int,
            gain_b: self.gain_b as int,
            setpoint: self.setpoint as int,
            last_ori: self.last_ori as int,
            output: self.output as int,
        }
    }
}

/// The feedback law: minus the position gain on the orientation error,
/// minus the rate gain on the orientation rate.
pub open spec fn spec_fsf_output(s: FsfV, ori: int, ori_rate: int) -> int {
    spec_add(
        spec_mul(spec_neg(s.gain_a), spec_sub(ori, s.setpoint)),
        spec_mul(spec_neg(s.gain_b), ori_rate),
    )
}

impl FSF {
    /// A fresh controller with the two gains; setpoint and state start at
    /// zero.
    pub fn new(gain_a: i64, gain_b: i64) -> (r: FSF)
        ensures
            r@ == (FsfV {
                gain_a: gain_a as int,
                gain_b: gain_b as int,
                setpoint: 0,
                last_ori: 0,
                output: 0,
            }),
    {
        FSF { gain_a, gain_b, setpoint: 0, last_ori: 0, output: 0 }
    }

    /// One control step over the measured orientation and its rate.
    pub fn compute(&mut self, ori: i64, ori_rate: i64)
        ensures
            final(self)@ == (FsfV {
                output: spec_fsf_output(old(self)@, ori as int, ori_rate as int),
                last_ori: ori as int,
                ..old(self)@
            }),
    {
        let a = fx_mul(fx_neg(self.gain_a), fx_sub(ori, self.setpoint));
        let b = fx_mul(fx_neg(self.gain_b), ori_rate);
        self.output = fx_add(a, b);
        self.last_ori = ori;
    }

    /// The output of the last `compute` call.
    pub fn get_output(&self) -> (r: i64)
        ensures
            r as int == self@.output,
    {
        self.output
    }
}

} // verus!
