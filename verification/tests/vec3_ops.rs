//! Vector operations, exercised through the fixed-point scalars: one
//! unit is one millionth.

use zegesim::vec3::Vec3;

fn fx(v: f64) -> i64 {
    (v * 1e6).round() as i64
}

fn close(a: i64, b: f64) -> bool {
    ((a as f64) / 1e6 - b).abs() < 1e-4
}

fn vec(x: f64, y: f64, z: f64) -> Vec3 {
    Vec3::new(fx(x), fx(y), fx(z))
}

#[test]
fn test_copy_clone() {
    let original = vec(1.0, 1.0, 1.0);
    let copy = original;
    let clone = original.clone();
    assert_eq!(original, copy);
    assert_eq!(original, clone);
}

#[test]
fn test_equality() {
    assert_eq!(vec(0.0, 1.0, 2.0), vec(0.0, 1.0, 2.0));
    assert_ne!(vec(1.0, 2.0, 3.0), vec(1.0, 2.0, 3.01));
}

#[test]
fn test_abs() {
    let v = vec(-1.0, 1.0, 0.0);
    assert_eq!(v.abs(), vec(1.0, 1.0, 0.0));
}

#[test]
fn test_add() {
    assert_eq!(vec(0.0, 0.0, 0.0).add(vec(1.0, 1.0, 1.0)), vec(1.0, 1.0, 1.0));
}

#[test]
fn test_sub() {
    assert_eq!(vec(0.0, 0.0, 0.0).sub(vec(1.0, 1.0, 1.0)), vec(-1.0, -1.0, -1.0));
}

#[test]
fn vec3_test_mul() {
    assert_eq!(vec(1.0, 1.0, 1.0).mul(vec(2.0, 2.0, 2.0)), vec(2.0, 2.0, 2.0));
}

#[test]
fn test_mul_scalar() {
    assert_eq!(vec(1.0, 1.0, 1.0).scale(fx(2.0)), vec(2.0, 2.0, 2.0));
}

#[test]
fn test_div() {
    assert_eq!(vec(1.0, 1.0, 1.0).div(vec(2.0, 2.0, 2.0)), vec(0.5, 0.5, 0.5));
}

#[test]
fn test_div_scalar() {
    assert_eq!(vec(1.0, 1.0, 1.0).scale_div(fx(2.0)), vec(0.5, 0.5, 0.5));
}

#[test]
fn vec3_test_norm() {
    let n = vec(5.0, 5.0, 5.0).normalize();
    assert!(close(n.x, 0.5773502691896257));
    assert!(close(n.y, 0.5773502691896257));
    assert!(close(n.z, 0.5773502691896257));
}

#[test]
fn test_len() {
    assert!(close(vec(5.0, 5.0, 5.0).norm(), 8.660254037844387));
}

#[test]
fn test_neg() {
    assert_eq!(vec(-1.0, -1.0, -1.0), vec(1.0, 1.0, 1.0).neg());
}

#[test]
fn test_index() {
    let original = vec(0.0, 10.0, 0.0);
    assert_eq!(original.index(1usize), fx(10.0));
}

#[test]
fn test_dot() {
    assert_eq!(vec(1.0, 2.0, 3.0).dot(vec(4.0, 5.0, 6.0)), fx(32.0));
}

#[test]
fn test_cross() {
    assert_eq!(vec(1.0, 0.0, 0.0).cross(vec(0.0, 1.0, 0.0)), vec(0.0, 0.0, 1.0));
}

#[test]
fn test_angle_between() {
    let a = vec(1.0, 0.0, 0.0);
    let b = vec(0.0, 1.0, 0.0);
    assert!(close(a.angle_between(b), std::f64::consts::FRAC_PI_2));
}

#[test]
fn test_default_is_zero() {
    assert_eq!(Vec3::default(), vec(0.0, 0.0, 0.0));
}
