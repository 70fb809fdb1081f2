//! The camera orientation tracker and the fixed-point helpers on
//! concrete values.

use drag_sandbox::features::{update_camera_orientation, CameraOrientation};
use drag_sandbox::fixed::{add_clamped, isqrt, mul_div_clamped, sub_clamped, Vec3Fx, SCALE};

fn zero_orientation() -> CameraOrientation {
    CameraOrientation {
        forward: Vec3Fx { x: 0, y: 0, z: 0 },
        right: Vec3Fx { x: 0, y: 0, z: 0 },
    }
}

#[test]
fn isqrt_small_values() {
    assert_eq!(isqrt(0), 0);
    assert_eq!(isqrt(1), 1);
    assert_eq!(isqrt(2), 1);
    assert_eq!(isqrt(3), 1);
    assert_eq!(isqrt(4), 2);
    assert_eq!(isqrt(24), 4);
    assert_eq!(isqrt(25), 5);
    assert_eq!(isqrt(26), 5);
}

#[test]
fn isqrt_large_values() {
    assert_eq!(isqrt(250_000_000_000), 500_000);
    assert_eq!(isqrt(u128::MAX), u64::MAX);
    let big: u128 = (u64::MAX as u128) * (u64::MAX as u128);
    assert_eq!(isqrt(big), u64::MAX);
    assert_eq!(isqrt(big - 1), u64::MAX - 1);
}

#[test]
fn mul_div_truncates_toward_zero() {
    assert_eq!(mul_div_clamped(7, 1, 2), 3);
    assert_eq!(mul_div_clamped(-7, 1, 2), -3);
    assert_eq!(mul_div_clamped(7, -1, 2), -3);
    assert_eq!(mul_div_clamped(-7, -1, 2), 3);
    assert_eq!(mul_div_clamped(0, 5, 3), 0);
}

#[test]
fn mul_div_saturates() {
    assert_eq!(mul_div_clamped(i64::MAX, 2, 1), i64::MAX);
    assert_eq!(mul_div_clamped(i64::MIN, 2, 1), i64::MIN);
    assert_eq!(mul_div_clamped(i64::MIN, 1, 1), i64::MIN);
    assert_eq!(mul_div_clamped(i64::MAX, -2, 1), i64::MIN);
}

#[test]
fn add_sub_saturate() {
    assert_eq!(add_clamped(1, 2), 3);
    assert_eq!(add_clamped(i64::MAX, 1), i64::MAX);
    assert_eq!(add_clamped(i64::MIN, -1), i64::MIN);
    assert_eq!(sub_clamped(1, 2), -1);
    assert_eq!(sub_clamped(i64::MIN, 1), i64::MIN);
    assert_eq!(sub_clamped(i64::MAX, -1), i64::MAX);
}

#[test]
fn no_camera_keeps_prior_snapshot() {
    let mut o = CameraOrientation {
        forward: Vec3Fx { x: 11, y: 0, z: 22 },
        right: Vec3Fx { x: -22, y: 0, z: 11 },
    };
    let before = o;
    update_camera_orientation(&mut o, None);
    assert_eq!(o, before);
}

#[test]
fn vertical_camera_keeps_prior_snapshot() {
    let mut o = zero_orientation();
    update_camera_orientation(
        &mut o,
        Some(Vec3Fx { x: 0, y: -SCALE, z: 0 }),
    );
    assert_eq!(o, zero_orientation());
}

#[test]
fn snapshot_of_camera_looking_down_negative_z() {
    let mut o = zero_orientation();
    update_camera_orientation(&mut o, Some(Vec3Fx { x: 0, y: 0, z: -SCALE }));
    assert_eq!(o.forward, Vec3Fx { x: 0, y: 0, z: -SCALE });
    assert_eq!(o.right, Vec3Fx { x: SCALE, y: 0, z: 0 });
}

#[test]
fn snapshot_of_three_four_five_camera() {
    // Horizontal part (300000, 400000) has length 500000, so the
    // rescaled axes are exactly unit length in fixed-point units.
    let mut o = zero_orientation();
    update_camera_orientation(
        &mut o,
        Some(Vec3Fx { x: 300_000, y: -500_000, z: 400_000 }),
    );
    assert_eq!(o.forward, Vec3Fx { x: 600_000, y: 0, z: 800_000 });
    assert_eq!(o.right, Vec3Fx { x: -800_000, y: 0, z: 600_000 });
    let nf: i64 = o.forward.x * o.forward.x + o.forward.z * o.forward.z;
    let nr: i64 = o.right.x * o.right.x + o.right.z * o.right.z;
    assert_eq!(nf, SCALE * SCALE);
    assert_eq!(nr, SCALE * SCALE);
    let dot: i64 = o.right.x * o.forward.x + o.right.y * o.forward.y + o.right.z * o.forward.z;
    assert_eq!(dot, 0);
}

#[test]
fn snapshot_rescales_a_long_forward_vector() {
    // A forward vector two world units long is brought back to unit
    // length, so the snapshot is not just the input handed back.
    let mut o = zero_orientation();
    update_camera_orientation(
        &mut o,
        Some(Vec3Fx { x: 2 * SCALE, y: -123, z: 0 }),
    );
    assert_eq!(o.forward, Vec3Fx { x: SCALE, y: 0, z: 0 });
    assert_eq!(o.right, Vec3Fx { x: 0, y: 0, z: SCALE });
}
