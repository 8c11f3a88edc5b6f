//! Camera movement, reset, placement and the combined matrix.

use house::camera::{is_projectable, Camera};
use house::input_state::InputState;
use house::types::Vector;

fn held(flags: &[&str]) -> InputState {
    let mut s = InputState::new();
    for f in flags {
        match *f {
            "forward" => s.forward.is_down = true,
            "back" => s.back.is_down = true,
            "left" => s.left.is_down = true,
            "right" => s.right.is_down = true,
            "up" => s.up.is_down = true,
            "down" => s.down.is_down = true,
            "look_up" => s.look_up.is_down = true,
            "look_down" => s.look_down.is_down = true,
            "look_left" => s.look_left.is_down = true,
            "look_right" => s.look_right.is_down = true,
            _ => panic!("unknown flag"),
        }
    }
    s
}

#[test]
fn new_spawn_pose() {
    let c = Camera::new(1_000_000, 100_000, 100_000_000, 90_000_000);
    assert_eq!(c.position, Vector { x: 300_000, y: -1_400_000, z: 1_000_000 });
    assert_eq!(c.rotation, Vector { x: 0, y: 0, z: 0 });
    assert_eq!(c.speed, 5_000_000);
    assert_eq!(c.near, 100_000);
    assert_eq!(c.far, 100_000_000);
    assert_eq!(c.fov, 90_000_000);
    assert_eq!(c.aspect_ratio, 1_000_000);
}

#[test]
fn update_forward_one_second() {
    // default speed 5.0, forward held for 1.0 s: z grows by exactly 5.0
    let mut c = Camera::new(1_000_000, 100_000, 100_000_000, 90_000_000);
    c.update(&held(&["forward"]), 1_000_000);
    assert_eq!(c.position.z, 6_000_000);
    assert_eq!(c.position.x, 300_000);
    assert_eq!(c.position.y, -1_400_000);
}

#[test]
fn update_diagonal_is_not_normalized() {
    // both axes move by the full step: the diagonal is faster than an axis
    let mut c = Camera::new(1_000_000, 100_000, 100_000_000, 90_000_000);
    c.update(&held(&["forward", "right"]), 1_000_000);
    assert_eq!(c.position.z, 6_000_000);
    assert_eq!(c.position.x, 5_300_000);
}

#[test]
fn update_opposite_directions_cancel() {
    let mut c = Camera::new(1_000_000, 100_000, 100_000_000, 90_000_000);
    c.update(&held(&["forward", "back"]), 1_000_000);
    assert_eq!(c.position.z, 1_000_000);
}

#[test]
fn update_vertical_axis_is_inverted() {
    // the up action lowers y, the down action raises it
    let mut c = Camera::new(1_000_000, 100_000, 100_000_000, 90_000_000);
    c.update(&held(&["up"]), 1_000_000);
    assert_eq!(c.position.y, -6_400_000);
    c.update(&held(&["down"]), 2_000_000);
    assert_eq!(c.position.y, 3_600_000);
}

#[test]
fn update_look_actions_turn() {
    let mut c = Camera::new(1_000_000, 100_000, 100_000_000, 90_000_000);
    c.update(&held(&["look_up", "look_left"]), 500_000);
    assert_eq!(c.rotation.x, 2_500_000);
    assert_eq!(c.rotation.y, -2_500_000);
    assert_eq!(c.rotation.z, 0);
    c.update(&held(&["look_down", "look_right"]), 500_000);
    assert_eq!(c.rotation, Vector { x: 0, y: 0, z: 0 });
}

#[test]
fn update_without_held_keys_is_still() {
    let mut c = Camera::new(1_000_000, 100_000, 100_000_000, 90_000_000);
    c.update(&InputState::new(), 1_000_000);
    assert_eq!(c.position, Vector { x: 300_000, y: -1_400_000, z: 1_000_000 });
    assert_eq!(c.rotation, Vector { x: 0, y: 0, z: 0 });
}

#[test]
fn update_scales_with_delta_time() {
    let mut c = Camera::new(1_000_000, 100_000, 100_000_000, 90_000_000);
    // a sixtieth of a second at speed 5.0 moves by 5/60 of a unit
    c.update(&held(&["forward"]), 16_666);
    assert_eq!(c.position.z, 1_000_000 + 83_330);
}

#[test]
fn reset_zeroes_pose_regardless_of_prior_state() {
    let mut c = Camera::new(1_000_000, 100_000, 100_000_000, 90_000_000);
    c.move_to(7_000_000, -3_000_000, 2_000_000);
    c.rotation.x = 123_456;
    c.rotation.y = -654_321;
    c.reset();
    assert_eq!(c.position, Vector { x: 0, y: 0, z: 0 });
    assert_eq!(c.rotation, Vector { x: 0, y: 0, z: 0 });
    assert_eq!(c.near, 100_000);
    assert_eq!(c.far, 100_000_000);
    assert_eq!(c.fov, 90_000_000);
    assert_eq!(c.speed, 5_000_000);
}

#[test]
fn reset_does_not_restore_spawn_position() {
    let mut c = Camera::new(1_000_000, 100_000, 100_000_000, 90_000_000);
    c.reset();
    assert_ne!(c.position, Vector { x: 300_000, y: -1_400_000, z: 1_000_000 });
    assert_eq!(c.position, Vector { x: 0, y: 0, z: 0 });
}

#[test]
fn move_to_places_absolutely() {
    let mut c = Camera::new(1_000_000, 100_000, 100_000_000, 90_000_000);
    c.move_to(-1, 2, -3);
    assert_eq!(c.position, Vector { x: -1, y: 2, z: -3 });
    c.move_to(0, 0, 0);
    assert_eq!(c.position, Vector { x: 0, y: 0, z: 0 });
}

#[test]
fn projection_unit_aspect_ninety_degrees() {
    let mut c = Camera::new(1_000_000, 100_000, 100_000_000, 90_000_000);
    c.move_to(0, 0, 0);
    assert_eq!(
        c.projection(),
        vec![
            1_000_000, 0, 0, 0,
            0, 1_000_000, 0, 0,
            0, 0, -1_002_002, -1_000_000,
            0, 0, -200_200, 0,
        ],
    );
}

#[test]
fn projection_is_deterministic() {
    // the matrix depends on pose and frustum alone: equal inputs give a
    // bit-identical result, whatever the speed
    let a = Camera::new(1_333_333, 100_000, 100_000_000, 60_000_000);
    let mut b = Camera::new(1_333_333, 100_000, 100_000_000, 60_000_000);
    b.speed = 123;
    assert_eq!(a.projection(), b.projection());
    assert_eq!(a.projection(), a.projection());
}

#[test]
fn projection_with_yaw() {
    let mut c = Camera::new(1_000_000, 100_000, 100_000_000, 90_000_000);
    c.move_to(0, 0, 0);
    c.rotation.y = 785_398;
    assert_eq!(
        c.projection(),
        vec![
            707_107, 0, -708_522, -707_107,
            0, 1_000_000, 0, 0,
            -707_107, 0, -708_522, -707_107,
            0, 0, -200_200, 0,
        ],
    );
}

#[test]
fn is_projectable_decides_machine_limits() {
    let mut c = Camera::new(1_000_000, 100_000, 100_000_000, 90_000_000);
    assert!(is_projectable(&c));
    c.move_to(30_000_000_000, 0, 0);
    assert!(!is_projectable(&c));
    c.move_to(0, 0, 0);
    assert!(is_projectable(&c));
}
