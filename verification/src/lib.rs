//! Model-rocket flight dynamics in fixed-point arithmetic.
//!
//! Every physical quantity is a scaled 64-bit integer: one unit stands for
//! one millionth of the physical unit (metre, second, radian, newton,
//! kilogram).  All arithmetic is exact integer arithmetic with truncation
//! toward zero and saturation at the `i64` range, so every operation has a
//! precise mathematical specification.

pub mod engine;
pub mod flight_path;
pub mod fsf;
pub mod fx;
pub mod motor;
pub mod motor_spec;
pub mod physics;
pub mod pid;
pub mod quat;
mod rng;
pub mod rocket_body;
pub mod settings;
pub mod trig;
pub mod tvc;
pub mod utils;
pub mod vec3;
