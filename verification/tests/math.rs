//! Fixed-point arithmetic, trigonometry and matrix transforms.

use house::fixed::{fx_mul, fx_div, fxd_le, sin_fix, cos_fix, tan_fix, FX_ONE, FX_PI,
    FX_TWO_PI, FX_HALF_PI};
use house::types::{Vec2, Vector, Vertex};
use house::utils::{deg_to_rad, mat4, mat_mul, matrix4_from_array, matrix4_to_array,
    rotation, trasform, xrotation, Mat4};

fn identity() -> Mat4 {
    mat4(
        FX_ONE, 0, 0, 0,
        0, FX_ONE, 0, 0,
        0, 0, FX_ONE, 0,
        0, 0, 0, FX_ONE,
    )
}

#[test]
fn fx_mul_scales_back() {
    assert_eq!(fx_mul(1_500_000, 1_500_000), 2_250_000);
    assert_eq!(fx_mul(1_000_000, 7), 7);
    assert_eq!(fx_mul(0, 123_456), 0);
}

#[test]
fn fx_mul_truncates_toward_zero() {
    // -0.000999 rounds to zero, not toward negative infinity
    assert_eq!(fx_mul(-1_000, 999), 0);
    assert_eq!(fx_mul(-1_500_000, 1_500_000), -2_250_000);
}

#[test]
fn fx_div_basic() {
    assert_eq!(fx_div(1_000_000, 3_000_000), 333_333);
    assert_eq!(fx_div(-1_000_000, 3_000_000), -333_333);
    assert_eq!(fx_div(1, 3), 333_333);
}

#[test]
fn fx_div_by_zero_is_zero() {
    assert_eq!(fx_div(5, 0), 0);
    assert_eq!(fx_div(-5_000_000, 0), 0);
}

#[test]
fn fxd_le_decides_quotient_bound() {
    assert!(fxd_le(1_000_000, 3_000_000, 333_333));
    assert!(!fxd_le(1_000_000, 3_000_000, 333_332));
    assert!(fxd_le(7, 0, 0));
}

#[test]
fn sin_cos_at_zero() {
    assert_eq!(sin_fix(0), 0);
    assert_eq!(cos_fix(0), 1_000_000);
}

#[test]
fn sin_cos_quarter_pi() {
    assert_eq!(sin_fix(785_398), 707_107);
    assert_eq!(cos_fix(785_398), 707_107);
    assert_eq!(tan_fix(785_398), 1_000_000);
}

#[test]
fn sin_cos_half_pi() {
    assert_eq!(sin_fix(FX_HALF_PI), 1_000_000);
    assert_eq!(cos_fix(FX_HALF_PI), 25);
}

#[test]
fn sin_cos_pi_and_beyond() {
    assert_eq!(sin_fix(FX_PI), 0);
    assert_eq!(cos_fix(FX_PI), -1_000_000);
    assert_eq!(sin_fix(FX_TWO_PI), 0);
    // seven eighths of a turn lies in the fourth quadrant
    assert_eq!(sin_fix(5_497_787), -707_107);
}

#[test]
fn sin_wraps_negative_angles() {
    assert_eq!(sin_fix(-1_570_796), -1_000_000);
    assert_eq!(sin_fix(-FX_TWO_PI), 0);
}

#[test]
fn deg_to_rad_values() {
    assert_eq!(deg_to_rad(90_000_000), 1_570_796);
    assert_eq!(deg_to_rad(180_000_000), FX_PI);
    assert_eq!(deg_to_rad(45_000_000), 785_398);
    assert_eq!(deg_to_rad(-90_000_000), -1_570_796);
    assert_eq!(deg_to_rad(0), 0);
}

#[test]
fn mat_mul_identity() {
    let i = identity();
    assert_eq!(mat_mul(&i, &i), i);
}

#[test]
fn flatten_unflatten_round_trip() {
    // the flat representation survives the round trip unchanged
    let m: Vec<i64> = vec![
        10, -20, 30, -40, 50, -60, 70, -80, 90, -100, 110, -120, 130, -140, 150, -160,
    ];
    let back = matrix4_to_array(&matrix4_from_array(&m));
    assert_eq!(back, m);
}

#[test]
fn unflatten_flatten_round_trip() {
    let m = mat4(
        1, 2, 3, 4,
        5, 6, 7, 8,
        9, 10, 11, 12,
        13, 14, 15, 16,
    );
    assert_eq!(matrix4_from_array(&matrix4_to_array(&m)), m);
}

#[test]
fn flatten_is_column_major() {
    let m = mat4(
        1, 2, 3, 4,
        5, 6, 7, 8,
        9, 10, 11, 12,
        13, 14, 15, 16,
    );
    assert_eq!(
        matrix4_to_array(&m),
        vec![1, 2, 3, 4, 5, 6, 7, 8, 9, 10, 11, 12, 13, 14, 15, 16],
    );
}

#[test]
fn rotation_at_zero_is_identity() {
    let m = rotation(&Vector::new(0, 0, 0));
    assert_eq!(m, identity());
}

#[test]
fn xrotation_quarter_pi_entries() {
    let m = xrotation(785_398);
    assert_eq!(
        matrix4_to_array(&m),
        vec![
            1_000_000, 0, 0, 0,
            0, 707_107, -707_107, 0,
            0, 707_107, 707_107, 0,
            0, 0, 0, 1_000_000,
        ],
    );
}

#[test]
fn trasform_zero_rotation_is_translation() {
    let m = trasform(&Vector::new(2_000_000, 3_000_000, 4_000_000), &Vector::new(0, 0, 0));
    assert_eq!(
        matrix4_to_array(&m),
        vec![
            1_000_000, 0, 0, 0,
            0, 1_000_000, 0, 0,
            0, 0, 1_000_000, 0,
            2_000_000, 3_000_000, 4_000_000, 1_000_000,
        ],
    );
}

#[test]
fn trasform_pitch_only_matches_axis_rotation() {
    // with yaw and roll at zero, the combined form reduces to the X-axis
    // rotation with the position in the last column
    let m = trasform(&Vector::new(1, 2, 3), &Vector::new(785_398, 0, 0));
    assert_eq!(
        matrix4_to_array(&m),
        vec![
            1_000_000, 0, 0, 0,
            0, 707_107, -707_107, 0,
            0, 707_107, 707_107, 0,
            1, 2, 3, 1_000_000,
        ],
    );
}

#[test]
fn sin_is_periodic() {
    assert_eq!(sin_fix(785_398 + FX_TWO_PI), 707_107);
    assert_eq!(sin_fix(785_398 - FX_TWO_PI), 707_107);
}

#[test]
fn vector_and_vertex_constructors() {
    let v = Vector::new(1, -2, 3);
    assert_eq!(v, Vector { x: 1, y: -2, z: 3 });
    let vx = Vertex::new(1, 2, 3, 4, 5, 6);
    assert_eq!(vx.position, Vector { x: 1, y: 2, z: 3 });
    assert_eq!(vx.color, Vector { x: 4, y: 5, z: 6 });
    let vs = Vertex::s_new(Vector::new(7, 8, 9), Vector::new(1, 0, 1));
    assert_eq!(vs.position, Vector { x: 7, y: 8, z: 9 });
    assert_eq!(vs.color, Vector { x: 1, y: 0, z: 1 });
    let p: Vec2<u32> = Vec2 { x: 640, y: 480 };
    assert_eq!(p.x, 640);
    assert_eq!(p.y, 480);
}
