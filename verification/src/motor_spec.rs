//! The catalogue of supported motor types.
//!
//! The empirical thrust table of each type is external input, supplied to
//! `Motor::new` as a raw curve; here live only the type names.

use vstd::prelude::*;

verus! {

/// A commercially designated motor type.
#[derive(Clone, Copy, PartialEq, Eq, Hash, Debug)]
pub enum MotorSpec {
    C6,
    CrazyI,
    D12,
    E6Rtc,
    E6,
    E12,
    F10,
    F15,
    G8St,
    G11,
    G12Rtc,
    G12St,
    H13,
}

/// The motor type a configuration name designates, if any.
pub open spec fn spec_parse_motor(name: Seq<char>) -> Option<MotorSpec> {
    if name == "i"@ {
        Some(MotorSpec::CrazyI)
    } else if name == "c6"@ {
        Some(MotorSpec::C6)
    } else if name == "d12"@ {
        Some(MotorSpec::D12)
    } else if name == "e6"@ {
        Some(MotorSpec::E6)
    } else if name == "e6_rct"@ {
        Some(MotorSpec::E6Rtc)
    } else if name == "e12"@ {
        Some(MotorSpec::E12)
    } else if name == "f15"@ {
        Some(MotorSpec::F15)
    } else if name == "f10"@ {
        Some(MotorSpec::F10)
    } else if name == "g12_rct"@ {
        Some(MotorSpec::G12Rtc)
    } else if name == "g12_st"@ {
        Some(MotorSpec::G12St)
    } else if name == "g11"@ {
        Some(MotorSpec::G11)
    } else if name == "g8_st"@ {
        Some(MotorSpec::G8St)
    } else if name == "h13"@ {
        Some(MotorSpec::H13)
    } else {
        None
    }
}

impl MotorSpec {
    /// Parse a configuration name into a motor type; an unknown name
    /// yields nothing.
    pub fn parse_from_str(name: &str) -> (r: Option<MotorSpec>)
        ensures
            r == spec_parse_motor(name@),
    {
        let n = name.to_owned();
        if n == "i".to_owned() {
            Some(MotorSpec::CrazyI)
        } else if n == "c6".to_owned() {
            Some(MotorSpec::C6)
        } else if n == "d12".to_owned() {
            Some(MotorSpec::D12)
        } else if n == "e6".to_owned() {
            Some(MotorSpec::E6)
        } else if n == "e6_rct".to_owned() {
            Some(MotorSpec::E6Rtc)
        } else if n == "e12".to_owned() {
            Some(MotorSpec::E12)
        } else if n == "f15".to_owned() {
            Some(MotorSpec::F15)
        } else if n == "f10".to_owned() {
            Some(MotorSpec::F10)
        } else if n == "g12_rct".to_owned() {
            Some(MotorSpec::G12Rtc)
        } else if n == "g12_st".to_owned() {
            Some(MotorSpec::G12St)
        } else if n == "g11".to_owned() {
            Some(MotorSpec::G11)
        } else if n == "g8_st".to_owned() {
            Some(MotorSpec::G8St)
        } else if n == "h13".to_owned() {
            Some(MotorSpec::H13)
        } else {
            None
        }
    }
}

} // verus!
