//! Whole-library behaviour: normalization, rotation round trips, total
//! impulse, rest states and an end-to-end powered flight.

use zegesim::flight_path::{FlightPath, Setpoint};
use zegesim::motor::{interpolate_thrust, Motor};
use zegesim::physics::PhysicsBody;
use zegesim::pid::PID;
use zegesim::quat::Quaternion;
use zegesim::rocket_body::RocketBody;
use zegesim::tvc::TVC;
use zegesim::vec3::Vec3;

fn fx(v: f64) -> i64 {
    (v * 1e6).round() as i64
}

fn fl(v: i64) -> f64 {
    (v as f64) / 1e6
}

fn close(a: i64, b: f64) -> bool {
    (fl(a) - b).abs() < 1e-4
}

#[test]
fn normalized_vectors_have_unit_norm() {
    let cases = [
        (3.0, 4.0, 12.0),
        (-0.2, 0.5, 0.1),
        (1000.0, -2000.0, 500.0),
        (0.0, 0.0, 0.25),
        (7.7, 7.7, -7.7),
    ];
    for (x, y, z) in cases {
        let n = Vec3::new(fx(x), fx(y), fx(z)).normalize().norm();
        assert!(close(n, 1.0));
    }
}

#[test]
fn rotation_round_trip_restores_vector() {
    let axis = Vec3::new(fx(1.0), fx(2.0), fx(3.0)).normalize();
    let q = Quaternion::from_axis_angle(axis, fx(0.7));
    let v = Vec3::new(fx(0.3), fx(-0.5), fx(0.8));
    let there = q.rotate(v);
    let back = q.conj().rotate(there);
    assert!(close(back.x, 0.3));
    assert!(close(back.y, -0.5));
    assert!(close(back.z, 0.8));
}

#[test]
fn quarter_turn_about_y_sends_x_to_minus_z() {
    let q = Quaternion::from_axis_angle(
        Vec3::new(0, fx(1.0), 0),
        fx(std::f64::consts::FRAC_PI_2),
    );
    let v = q.rotate(Vec3::new(fx(1.0), 0, 0));
    assert!(close(v.x, 0.0));
    assert!(close(v.y, 0.0));
    assert!(close(v.z, -1.0));
}

#[test]
fn total_impulse_approximates_trapezoid() {
    // A ramp from rest to ten newtons over one second: the trapezoidal
    // integral of the raw curve is five newton-seconds.
    let raw: Vec<(i64, i64)> = vec![(fx(1.0), fx(10.0))];
    let step = fx(0.01);
    let table = interpolate_thrust(&raw, step);
    let mut impulse = 0.0;
    for (dt, thrust) in table {
        impulse += fl(dt) * fl(thrust);
    }
    // The discretization error stays below one step of the peak thrust.
    assert!((impulse - 5.0).abs() <= 10.0 * 0.01);
}

#[test]
fn pid_integral_never_exceeds_cap() {
    let i_max = fx(0.5);
    let mut pid = PID::new(0, fx(1.0), 0, fx(1.0), i_max, false);
    for _ in 0..100 {
        pid.compute(0, fx(0.1));
        assert!(pid.integral().abs() <= i_max);
    }
}

#[test]
fn servo_step_is_rate_limited() {
    let zero = Vec3::new(0, 0, 0);
    let mut tvc = TVC::new(fx(40.0), fx(1.0), Vec3::new(0, fx(-30.0), fx(-30.0)), Vec3::new(
        0,
        fx(30.0),
        fx(30.0),
    ), zero);
    // One radian commands about 57 degrees of servo travel, far beyond
    // what one tick allows: the servo advances by exactly speed * dt.
    tvc.actuate(Vec3::new(0, fx(1.0), fx(-1.0)), fx(0.1));
    let servo = tvc.servo_position();
    assert_eq!(servo.y, fx(4.0));
    assert_eq!(servo.z, fx(-4.0));
}

#[test]
fn body_at_rest_stays_at_rest() {
    let mut body = PhysicsBody::new();
    let start_pos = body.position();
    let start_rot = body.rotation();
    for _ in 0..200 {
        body.update(fx(0.01));
        body.clear();
    }
    assert_eq!(body.position(), start_pos);
    assert_eq!(body.rotation(), start_rot);
    assert_eq!(body.velocity(), Vec3::new(0, 0, 0));
    assert_eq!(body.rotational_velocity(), Vec3::new(0, 0, 0));
}

#[test]
fn flight_path_exact_at_samples_and_before_first() {
    let rows = vec![
        Setpoint { t: fx(1.0), x: fx(1.5), y: fx(10.0), z: fx(-2.0) },
        Setpoint { t: fx(2.0), x: fx(2.5), y: fx(20.0), z: fx(2.0) },
        Setpoint { t: fx(4.0), x: fx(0.5), y: fx(5.0), z: fx(1.0) },
    ];
    let mut path = FlightPath::new(rows).unwrap();
    assert_eq!(path.get_next_setpoint(fx(2.0)), Vec3::new(fx(2.5), fx(20.0), fx(2.0)));
    assert_eq!(path.get_next_setpoint(fx(1.0)), Vec3::new(fx(1.5), fx(10.0), fx(-2.0)));
    assert_eq!(path.get_next_setpoint(fx(4.0)), Vec3::new(fx(0.5), fx(5.0), fx(1.0)));
    assert_eq!(path.get_next_setpoint(fx(0.25)), Vec3::new(fx(1.5), fx(10.0), fx(-2.0)));
}

#[test]
fn powered_flight_reaches_ten_metres_per_second() {
    // Dry mass one kilogram, no drag, no gravity, a motor of constant
    // ten newtons for one second, fixed hundredth-of-a-second steps.
    let step = fx(0.01);
    let segments: Vec<(i64, i64)> = vec![(step, fx(10.0)); 100];
    let motor = Motor::from_interpolated(segments, 0, 0).unwrap();
    let mut rocket = RocketBody::new(
        step,
        fx(1.0),
        Vec3::new(fx(1.0), fx(1.0), fx(1.0)),
        0,
        fx(1.0),
        Vec3::new(0, 0, 0),
        Vec3::new(0, 0, 0),
        Vec3::new(0, 0, 0),
        Vec3::new(0, 0, 0),
        0,
    );
    rocket.set_floor(false);
    rocket.add_motor(String::from("ascent"), motor);
    rocket.ignite(&String::from("ascent"));
    let mut velocity_at_one_second = 0i64;
    for _ in 0..300 {
        rocket.update();
        rocket.clear();
        let t = rocket.get_time_seconds();
        if t == fx(1.0) {
            velocity_at_one_second = rocket.velocity().x;
        }
        if t > fx(1.05) {
            // After burnout the velocity holds steady near ten.
            assert!((fl(rocket.velocity().x) - 10.0).abs() <= 0.1 + 1e-9);
        }
    }
    assert!((fl(velocity_at_one_second) - 10.0).abs() <= 0.1 + 1e-9);
}
