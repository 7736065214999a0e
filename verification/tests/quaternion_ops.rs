//! Quaternion operations in fixed point.

use zegesim::quat::Quaternion;
use zegesim::utils::DEG_TO_RAD;
use zegesim::vec3::Vec3;

fn fx(v: f64) -> i64 {
    (v * 1e6).round() as i64
}

fn close(a: i64, b: f64) -> bool {
    ((a as f64) / 1e6 - b).abs() < 1e-4
}

fn close_tol(a: i64, b: f64, tol: f64) -> bool {
    ((a as f64) / 1e6 - b).abs() < tol
}

fn quat(w: f64, x: f64, y: f64, z: f64) -> Quaternion {
    Quaternion::new(fx(w), fx(x), fx(y), fx(z))
}

#[test]
fn test_eq() {
    assert_eq!(quat(1.0, 0.0, 0.0, 0.0), quat(1.0, 0.0, 0.0, 0.0));
}

#[test]
fn quaternion_test_mul() {
    assert_eq!(
        quat(1.0, 0.5, 0.5, 0.5).mul(quat(1.0, 0.5, 0.5, 0.5)),
        quat(0.25, 1.0, 1.0, 1.0)
    );
}

#[test]
fn test_conj() {
    assert_eq!(quat(1.0, 0.5, 0.5, 0.5).conj(), quat(1.0, -0.5, -0.5, -0.5));
}

#[test]
fn quaternion_test_norm() {
    let q = quat(2.0, 2.0, 2.0, 2.0);
    assert!(close(q.norm(), 4.0));
}

#[test]
fn test_rotate() {
    let q = Quaternion::from_euler(Vec3::new(0, 90 * DEG_TO_RAD, 0));
    let v = Vec3::new(fx(1.0), 0, 0);
    let vt = q.rotate(v);
    assert!(close(vt.x, 0.0));
    assert!(close(vt.y, 0.0));
    assert!(close(vt.z, -1.0));
}

#[test]
fn test_euler_to_quaternion() {
    let e = Vec3::new(45 * DEG_TO_RAD, 45 * DEG_TO_RAD, 45 * DEG_TO_RAD);
    let q = Quaternion::from_euler(e);
    assert!(close(q.w, 0.8446231020115715));
    assert!(close(q.x, 0.19134170284356303));
    assert!(close(q.y, 0.4619399539487806));
    assert!(close(q.z, 0.19134170284356303));
}

#[test]
fn test_quaternion_to_euler() {
    let q = quat(
        0.8446231020115715,
        0.19134170284356303,
        0.4619399539487806,
        0.19134170284356303,
    );
    let e = q.to_euler();
    let want = 45.0 * std::f64::consts::PI / 180.0;
    assert!(close_tol(e.x, want, 0.15));
    assert!(close_tol(e.y, want, 0.15));
    assert!(close_tol(e.z, want, 0.15));
}

#[test]
fn test_default_is_identity() {
    assert_eq!(Quaternion::default(), quat(1.0, 0.0, 0.0, 0.0));
}

#[test]
fn test_normalize() {
    let q = quat(2.0, 0.0, 0.0, 0.0).normalize();
    assert!(close(q.w, 1.0));
    assert!(close(q.x, 0.0));
}
