use fps_core::fixed::{mul_div_i64, Vec3Fx};
use fps_core::projectile::{spawn_velocity, PROJECTILE_SPEED};

#[test]
fn scaling_rounds_toward_zero() {
    // -1 * 1 / 2 is 0, not -1: the fixed-point scaling truncates toward
    // zero on both sides, as the machine division does.
    assert_eq!(mul_div_i64(-1, 1, 2), 0);
    assert_eq!(mul_div_i64(1, 1, 2), 0);
    assert_eq!(mul_div_i64(-3, 1, 2), -1);
    assert_eq!(mul_div_i64(3, 1, 2), 1);
    assert_eq!(mul_div_i64(-1500, 1, 1000), -1);
}

#[test]
fn vector_scaling_is_componentwise() {
    let v = Vec3Fx { x: -1_500, y: 1_500, z: -1 };
    let half = v.scaled_ratio(1, 2);
    assert_eq!(half, Vec3Fx { x: -750, y: 750, z: 0 });
}

#[test]
fn vector_sum_and_difference_are_componentwise() {
    let a = Vec3Fx { x: 1, y: -2, z: 3 };
    let b = Vec3Fx { x: 10, y: 20, z: -30 };
    assert_eq!(a.plus(b), Vec3Fx { x: 11, y: 18, z: -27 });
    assert_eq!(a.minus(b), Vec3Fx { x: -9, y: -22, z: 33 });
}

#[test]
fn inexact_aim_rounds_each_component_toward_zero() {
    // A diagonal aim has no integer length: the length 1414 (the integer
    // square root of 2,000,000) divides neither scaled component, and each
    // lands one rounding step below the exact value.
    let origin = Vec3Fx { x: 0, y: 0, z: 0 };
    let target = Vec3Fx { x: 1_000, y: 1_000, z: 0 };
    let v = spawn_velocity(target, origin, PROJECTILE_SPEED).unwrap();
    assert_eq!(v, Vec3Fx { x: 28_288, y: 28_288, z: 0 });
}
