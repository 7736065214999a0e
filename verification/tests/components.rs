//! Component behaviour: controllers, actuator, motor, flight path,
//! engine collection and the scalar helpers.

use zegesim::engine::RocketEngineSystem;
use zegesim::flight_path::{FlightPath, Setpoint};
use zegesim::fsf::FSF;
use zegesim::motor::{interpolate_thrust, Motor};
use zegesim::motor_spec::MotorSpec;
use zegesim::pid::PID;
use zegesim::tvc::TVC;
use zegesim::utils::{
    calculate_angle_fom_desired_torque, clamp, lpf, max, min, positive_or_negative, rotate, Vec2,
};
use zegesim::vec3::Vec3;

fn fx(v: f64) -> i64 {
    (v * 1e6).round() as i64
}

fn close(a: i64, b: f64) -> bool {
    ((a as f64) / 1e6 - b).abs() < 1e-4
}

#[test]
fn test_clamp_min_max() {
    assert_eq!(max(3, 5), 5);
    assert_eq!(min(3, 5), 3);
    assert_eq!(clamp(7, 0, 5), 5);
    assert_eq!(clamp(-7, 0, 5), 0);
    assert_eq!(clamp(3, 0, 5), 3);
}

#[test]
fn test_lpf() {
    assert_eq!(lpf(fx(1.0), fx(0.0), fx(0.25)), fx(0.75));
}

#[test]
fn test_rotate_2d() {
    let p = rotate(Vec2 { x: fx(1.0), y: 0 }, fx(std::f64::consts::FRAC_PI_2));
    assert!(close(p.x, 0.0));
    assert!(close(p.y, 1.0));
}

#[test]
fn test_positive_or_negative() {
    for _ in 0..16 {
        let r = positive_or_negative();
        assert!(r == 1 || r == -1);
    }
}

#[test]
fn test_angle_from_desired_torque() {
    assert!(close(
        calculate_angle_fom_desired_torque(fx(1.0), fx(2.0), fx(1.0), fx(1.0)),
        0.5235987755982989
    ));
    assert_eq!(calculate_angle_fom_desired_torque(fx(1.0), 0, fx(1.0), fx(1.0)), 0);
    assert_eq!(
        calculate_angle_fom_desired_torque(fx(1.0), fx(0.5), fx(4.0), fx(1.0)),
        0
    );
}

#[test]
fn test_pid_proportional() {
    let mut pid = PID::new(fx(1.0), 0, 0, fx(1.0), fx(10.0), false);
    pid.compute(fx(0.25), fx(0.01));
    assert_eq!(pid.output(), fx(0.75));
}

#[test]
fn test_pid_integral() {
    let mut pid = PID::new(0, fx(1.0), 0, fx(1.0), fx(10.0), false);
    pid.compute(0, fx(0.1));
    assert_eq!(pid.output(), fx(0.1));
    pid.compute(0, fx(0.1));
    assert_eq!(pid.output(), fx(0.2));
    pid.zero_integral();
    pid.compute(0, fx(0.1));
    assert_eq!(pid.output(), fx(0.1));
}

#[test]
fn test_pid_derivative() {
    let mut pid = PID::new(0, 0, fx(1.0), fx(1.0), fx(10.0), false);
    pid.compute(0, fx(0.1));
    pid.compute(fx(0.5), fx(0.1));
    assert_eq!(pid.output(), fx(-5.0));
}

#[test]
fn test_fsf() {
    let mut fsf = FSF::new(fx(2.0), fx(0.5));
    fsf.compute(fx(0.25), fx(1.0));
    assert_eq!(fsf.get_output(), fx(-1.0));
}

#[test]
fn test_tvc_forces_at_zero_deflection() {
    let zero = Vec3::new(0, 0, 0);
    let mut tvc = TVC::new(fx(40.0), fx(1.0), Vec3::new(0, fx(-30.0), fx(-30.0)), Vec3::new(
        0,
        fx(30.0),
        fx(30.0),
    ), zero);
    tvc.calculate_forces(fx(10.0));
    let f = tvc.force();
    assert_eq!(f.x, fx(10.0));
    assert_eq!(f.y, 0);
    assert_eq!(f.z, 0);
}

#[test]
fn test_tvc_travel_clamped() {
    let zero = Vec3::new(0, 0, 0);
    let mut tvc = TVC::new(fx(1000.0), fx(1.0), Vec3::new(0, fx(-2.0), fx(-2.0)), Vec3::new(
        0,
        fx(2.0),
        fx(2.0),
    ), zero);
    // A huge command with a generous rate limit runs into the travel
    // bounds within a few ticks.
    for _ in 0..10 {
        tvc.actuate(Vec3::new(0, fx(1.0), fx(1.0)), fx(0.1));
    }
    let servo = tvc.servo_position();
    assert_eq!(servo.y, fx(2.0));
    assert_eq!(servo.z, fx(2.0));
}

#[test]
fn test_motor_interpolation_exact_at_samples() {
    let raw: Vec<(i64, i64)> = vec![(fx(0.1), fx(2.0)), (fx(0.2), fx(4.0))];
    let table = interpolate_thrust(&raw, fx(0.05));
    assert_eq!(table.len(), 4);
    assert_eq!(table[0], (fx(0.05), fx(1.0)));
    assert_eq!(table[1], (fx(0.05), fx(2.0)));
    assert_eq!(table[2], (fx(0.05), fx(3.0)));
    assert_eq!(table[3], (fx(0.05), fx(4.0)));
}

#[test]
fn test_motor_rejects_malformed_curves() {
    let unsorted: Vec<(i64, i64)> = vec![(fx(0.2), fx(2.0)), (fx(0.1), fx(4.0))];
    assert!(Motor::new(&unsorted, fx(0.05), 0, 0).is_none());
    let raw: Vec<(i64, i64)> = vec![(fx(0.1), fx(2.0))];
    assert!(Motor::new(&raw, 0, 0, 0).is_none());
    assert!(Motor::new(&raw, fx(0.05), -1, 0).is_none());
    assert!(Motor::new(&raw, fx(0.05), 0, -1).is_none());
    assert!(Motor::new(&raw, fx(0.2), 0, 0).is_none());
    assert!(Motor::new(&raw, fx(0.05), 0, 0).is_some());
}

#[test]
fn test_motor_burn_sequence() {
    let raw: Vec<(i64, i64)> = vec![(fx(0.1), fx(2.0)), (fx(0.2), fx(4.0))];
    let mut motor = Motor::new(&raw, fx(0.05), 0, 0).unwrap();
    assert!(!motor.lit());
    assert_eq!(motor.thrust_for(fx(0.05)), 0);
    motor.light(0);
    assert!(motor.lit());
    assert_eq!(motor.thrust_for(fx(0.05)), fx(1.0));
    assert_eq!(motor.thrust_for(fx(0.05)), fx(2.0));
    // Two segments consumed at once: the thrust is their mean.
    assert_eq!(motor.thrust_for(fx(0.1)), fx(3.5));
    // Past exhaustion the thrust is zero, not an error.
    assert!(motor.burnt_out());
    assert_eq!(motor.thrust_for(fx(0.05)), 0);
    assert_eq!(motor.thrust_for(fx(10.0)), 0);
}

#[test]
fn test_motor_light_burnt_out_noop() {
    let raw: Vec<(i64, i64)> = vec![(fx(0.1), fx(2.0))];
    let mut motor = Motor::new(&raw, fx(0.05), 0, 0).unwrap();
    motor.light(0);
    motor.thrust_for(fx(0.2));
    assert!(motor.burnt_out());
    // Igniting an exhausted motor changes nothing: it stays inert.
    motor.light(fx(0.5));
    motor.light_random(fx(0.5));
    assert_eq!(motor.delay_left(), 0);
    assert_eq!(motor.thrust_for(fx(0.05)), 0);
}

#[test]
fn test_motor_ignition_delay() {
    let raw: Vec<(i64, i64)> = vec![(fx(0.1), fx(2.0)), (fx(0.2), fx(4.0))];
    let mut motor = Motor::new(&raw, fx(0.05), 0, 0).unwrap();
    motor.light(fx(0.1));
    assert_eq!(motor.thrust_for(fx(0.05)), 0);
    assert_eq!(motor.delay_left(), fx(0.05));
    // The remaining delay and the first segment burn inside one call.
    assert_eq!(motor.thrust_for(fx(0.1)), fx(1.0));
    assert_eq!(motor.delay_left(), 0);
}

#[test]
fn test_motor_light_idempotent() {
    let raw: Vec<(i64, i64)> = vec![(fx(0.1), fx(2.0))];
    let mut motor = Motor::new(&raw, fx(0.05), 0, 0).unwrap();
    motor.light(fx(0.5));
    motor.light(fx(0.9));
    assert_eq!(motor.delay_left(), fx(0.5));
}

#[test]
fn test_motor_random_delay_within_bounds() {
    let raw: Vec<(i64, i64)> = vec![(fx(0.1), fx(2.0))];
    for _ in 0..8 {
        let mut motor = Motor::new(&raw, fx(0.05), 0, 0).unwrap();
        motor.light_random(fx(1.0));
        let d = motor.delay_left();
        // The drawn delay lies in the eighty-to-hundred-percent band.
        assert!(fx(0.8) <= d && d <= fx(1.0));
    }
}

#[test]
fn test_engine_ignite_with_delay_is_deterministic() {
    let raw: Vec<(i64, i64)> = vec![(fx(1.0), fx(10.0))];
    let motor = Motor::new(&raw, fx(0.01), 0, 0).unwrap();
    let mut engines = RocketEngineSystem::new(fx(0.01), fx(5.0));
    engines.add_motor(String::from("ascent"), motor);
    engines.ignite_with_delay(&String::from("ascent"), fx(0.5));
    // The half-second delay burns off first and yields no thrust.
    engines.update(fx(0.5));
    assert_eq!(engines.current_thrust(), 0);
    // One step later the ramp is alive.
    engines.update(fx(0.51));
    assert!(close(engines.current_thrust(), 0.1));
}

#[test]
fn test_motor_weight_depletes_with_table() {
    let raw: Vec<(i64, i64)> = vec![(fx(0.1), fx(2.0)), (fx(0.2), fx(4.0))];
    let mut motor = Motor::new(&raw, fx(0.05), fx(0.020), fx(0.012)).unwrap();
    assert_eq!(motor.weight(), fx(0.032));
    motor.light(0);
    motor.thrust_for(fx(0.1));
    assert_eq!(motor.weight(), fx(0.026));
    motor.thrust_for(fx(0.1));
    assert_eq!(motor.weight(), fx(0.020));
}

#[test]
fn test_parse_from_str() {
    assert_eq!(MotorSpec::parse_from_str("i"), Some(MotorSpec::CrazyI));
    assert_eq!(MotorSpec::parse_from_str("c6"), Some(MotorSpec::C6));
    assert_eq!(MotorSpec::parse_from_str("d12"), Some(MotorSpec::D12));
    assert_eq!(MotorSpec::parse_from_str("e6"), Some(MotorSpec::E6));
    assert_eq!(MotorSpec::parse_from_str("e6_rct"), Some(MotorSpec::E6Rtc));
    assert_eq!(MotorSpec::parse_from_str("e12"), Some(MotorSpec::E12));
    assert_eq!(MotorSpec::parse_from_str("f15"), Some(MotorSpec::F15));
    assert_eq!(MotorSpec::parse_from_str("f10"), Some(MotorSpec::F10));
    assert_eq!(MotorSpec::parse_from_str("g12_rct"), Some(MotorSpec::G12Rtc));
    assert_eq!(MotorSpec::parse_from_str("g12_st"), Some(MotorSpec::G12St));
    assert_eq!(MotorSpec::parse_from_str("g11"), Some(MotorSpec::G11));
    assert_eq!(MotorSpec::parse_from_str("g8_st"), Some(MotorSpec::G8St));
    assert_eq!(MotorSpec::parse_from_str("h13"), Some(MotorSpec::H13));
    assert_eq!(MotorSpec::parse_from_str("q99"), None);
    assert_eq!(MotorSpec::parse_from_str("C6"), None);
}

#[test]
fn test_flight_path_rejects_unsorted() {
    let rows = vec![
        Setpoint { t: fx(2.0), x: 0, y: 0, z: 0 },
        Setpoint { t: fx(1.0), x: 0, y: 0, z: 0 },
    ];
    assert!(FlightPath::new(rows).is_none());
}

#[test]
fn test_flight_path_interpolates() {
    let rows = vec![
        Setpoint { t: fx(1.0), x: fx(1.0), y: fx(10.0), z: fx(-2.0) },
        Setpoint { t: fx(3.0), x: fx(3.0), y: fx(20.0), z: fx(2.0) },
    ];
    let mut path = FlightPath::new(rows).unwrap();
    let mid = path.get_next_setpoint(fx(2.0));
    assert_eq!(mid, Vec3::new(fx(2.0), fx(15.0), fx(0.0)));
    let held = path.get_next_setpoint(fx(9.0));
    assert_eq!(held, Vec3::new(fx(3.0), fx(20.0), fx(2.0)));
}

#[test]
fn test_flight_path_empty_returns_cache() {
    let mut path = FlightPath::new(Vec::new()).unwrap();
    assert_eq!(path.get_next_setpoint(fx(1.0)), Vec3::new(0, 0, 0));
}

#[test]
fn test_engine_system() {
    let raw: Vec<(i64, i64)> = vec![(fx(1.0), fx(10.0))];
    let motor = Motor::new(&raw, fx(0.01), 0, 0).unwrap();
    let mut engines = RocketEngineSystem::new(fx(0.01), 0);
    engines.add_motor(String::from("ascent"), motor);
    engines.ignite(&String::from("ascent"));
    engines.update(fx(0.5));
    // Fifty segments of the linear ramp consumed at once: the thrust is
    // their mean, the ramp value at a quarter second plus one step.
    assert!(close(engines.current_thrust(), 2.55));
    engines.throttle(fx(0.5));
    engines.update(fx(0.51));
    // One segment at just past half a second reads 5.1, halved by the
    // throttle.
    assert!(close(engines.current_thrust(), 2.55));
}

#[test]
fn test_engine_total_mass() {
    let raw: Vec<(i64, i64)> = vec![(fx(1.0), fx(10.0))];
    let m1 = Motor::new(&raw, fx(0.01), fx(0.02), fx(0.01)).unwrap();
    let m2 = Motor::new(&raw, fx(0.01), fx(0.03), fx(0.01)).unwrap();
    let mut engines = RocketEngineSystem::new(fx(0.01), 0);
    engines.add_motor(String::from("a"), m1);
    engines.add_motor(String::from("b"), m2);
    assert_eq!(engines.total_mass(), fx(0.07));
}
