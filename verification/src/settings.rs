//! The configuration record a simulation is built from.
//!
//! Parsing a configuration file into this record is the caller's
//! affair; the library consumes the plain values.

use vstd::prelude::*;

use crate::motor_spec::MotorSpec;
use crate::vec3::Vec3;

verus! {

/// Everything a simulation run is configured with, in fixed-point
/// units.
pub struct Settings {
    /// The motors to mount, each under its configuration name.
    pub motors: Vec<(String, MotorSpec)>,
    /// Upper bound on the randomized ignition delay.
    pub max_ignition_delay: i64,
    /// Fixed integration step.
    pub time_step: i64,
    /// Total simulated duration.
    pub simulation_time: i64,
    /// Gyroscope read interval.
    pub imu_gyro_read_speed: i64,
    /// Accelerometer read interval.
    pub imu_accel_read_speed: i64,
    /// Position-fix read interval.
    pub gps_read_speed: i64,
    /// Barometer read interval.
    pub baro_read_speed: i64,
    /// Dry mass of the vehicle.
    pub mass: i64,
    /// Per-axis moment of inertia.
    pub mmoi: Vec3,
    /// Drag reference area.
    pub drag_area: i64,
    /// Base drag coefficient.
    pub drag_coeff: i64,
    /// Ambient wind velocity.
    pub wind_speed: Vec3,
    /// Actuator noise magnitude.
    pub tvc_noise: i64,
    /// Servo rate limit.
    pub tvc_servo_speed: i64,
    /// Servo-to-nozzle linkage ratio.
    pub linkage_ratio: i64,
    /// Maximum gimbal deflection per axis.
    pub max_tvc: Vec3,
    /// Mounting point of the gimbal.
    pub tvc_location: Vec3,
    /// Centre of pressure.
    pub cp_location: Vec3,
}

} // verus!
