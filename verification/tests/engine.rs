//! The frame orchestrator: initialization, input mapping, ticks, resizes and
//! the per-frame plans.

use house::engine::{create_swapchain_description, Engine, InputEvent, KeyCode,
    PresentMode, TextureFormat};
use house::input_state::InputState;
use house::types::{Vector, Vertex};

#[test]
fn engine_new_initial_state() {
    let e = Engine::new(1000, 1000);
    assert_eq!(e.camera.aspect_ratio, 1_000_000);
    assert_eq!(e.camera.near, 10_000);
    assert_eq!(e.camera.far, 1_000_000_000);
    assert_eq!(e.camera.fov, 90_000_000);
    assert_eq!(e.camera.position, Vector { x: 300_000, y: -1_400_000, z: 1_000_000 });
    assert_eq!(e.input, InputState::new());
    assert_eq!(e.index_buffer_len, 36);
    assert_eq!(e.width, 1000);
    assert_eq!(e.height, 1000);
    // the uniform data already holds the spawn-pose matrix
    assert_eq!(
        e.uniform,
        vec![
            1_000_000, 0, 0, 0,
            0, 1_000_000, 0, 0,
            0, 0, -1_000_020, -1_000_000,
            300_000, -1_400_000, -1_020_020, -1_000_000,
        ],
    );
}

#[test]
fn cube_mesh_shape() {
    let (verticies, indicies) = Engine::create_verticies();
    assert_eq!(verticies.len(), 24);
    assert_eq!(indicies.len(), 36);
    for i in &indicies {
        assert!((*i as usize) < verticies.len());
    }
    // front face is red, at one unit toward the viewer
    assert_eq!(verticies[0], Vertex::new(-1_000_000, -1_000_000, 1_000_000, 1_000_000, 0, 0));
    // right face is green
    assert_eq!(verticies[8], Vertex::new(1_000_000, -1_000_000, -1_000_000, 0, 1_000_000, 0));
    // two triangles per face, quad corners shared
    assert_eq!(&indicies[0..6], &[0, 1, 2, 2, 3, 0]);
    assert_eq!(&indicies[30..36], &[20, 21, 22, 22, 23, 20]);
}

#[test]
fn key_press_sets_and_release_clears_flags() {
    let mut e = Engine::new(1000, 1000);
    let cases: Vec<KeyCode> = vec![
        KeyCode::W, KeyCode::S, KeyCode::A, KeyCode::D, KeyCode::Up, KeyCode::Down,
        KeyCode::Left, KeyCode::Right, KeyCode::Space, KeyCode::LControl,
    ];
    for code in cases {
        e.get_input_state(&InputEvent::KeyPressed(code), 0);
        let s = e.input;
        let flag = match code {
            KeyCode::W => s.forward.is_down,
            KeyCode::S => s.back.is_down,
            KeyCode::A => s.left.is_down,
            KeyCode::D => s.right.is_down,
            KeyCode::Up => s.look_up.is_down,
            KeyCode::Down => s.look_down.is_down,
            KeyCode::Left => s.look_left.is_down,
            KeyCode::Right => s.look_right.is_down,
            KeyCode::Space => s.up.is_down,
            KeyCode::LControl => s.down.is_down,
            _ => false,
        };
        assert!(flag);
        e.get_input_state(&InputEvent::KeyReleased(code), 0);
        assert_eq!(e.input, InputState::new());
    }
}

#[test]
fn unmapped_keys_are_ignored() {
    let mut e = Engine::new(1000, 1000);
    e.get_input_state(&InputEvent::KeyPressed(KeyCode::Other), 0);
    assert_eq!(e.input, InputState::new());
    e.get_input_state(&InputEvent::KeyReleased(KeyCode::Other), 0);
    assert_eq!(e.input, InputState::new());
    e.get_input_state(&InputEvent::Other, 0);
    assert_eq!(e.input, InputState::new());
}

#[test]
fn reset_key_acts_on_the_press_edge_only() {
    let mut e = Engine::new(1000, 1000);
    e.update(&InputEvent::KeyPressed(KeyCode::W), 0);
    e.update(&InputEvent::Other, 1_000_000);
    assert_eq!(e.camera.position.z, 6_000_000);
    // one press of the reset key: the pose returns to the origin once
    e.update(&InputEvent::KeyPressed(KeyCode::R), 0);
    assert_eq!(e.camera.position, Vector { x: 0, y: 0, z: 0 });
    assert_eq!(e.camera.rotation, Vector { x: 0, y: 0, z: 0 });
    // ticks while the key stays held do not reset again
    e.update(&InputEvent::Other, 0);
    e.update(&InputEvent::Other, 0);
    assert_eq!(e.camera.position, Vector { x: 0, y: 0, z: 0 });
    // movement resumes from the origin, proving no further reset fired
    e.update(&InputEvent::Other, 1_000_000);
    assert_eq!(e.camera.position, Vector { x: 0, y: 0, z: 5_000_000 });
}

#[test]
fn update_recomputes_uniform_every_tick() {
    let mut e = Engine::new(1000, 1000);
    e.update(&InputEvent::KeyPressed(KeyCode::W), 0);
    e.update(&InputEvent::Other, 1_000_000);
    assert_eq!(e.camera.position.z, 6_000_000);
    assert_eq!(
        e.uniform,
        vec![
            1_000_000, 0, 0, 0,
            0, 1_000_000, 0, 0,
            0, 0, -1_000_020, -1_000_000,
            300_000, -1_400_000, -6_020_120, -6_000_000,
        ],
    );
    // the uniform data always equals the camera's own matrix
    assert_eq!(e.uniform, e.camera.projection());
}

#[test]
fn window_resized_recomputes_aspect_and_uniform() {
    let mut e = Engine::new(1000, 1000);
    assert_eq!(e.uniform[0], 1_000_000);
    e.window_resized(800, 600);
    // 800 / 600 in fixed point
    assert_eq!(e.camera.aspect_ratio, 1_333_333);
    assert_eq!(e.width, 800);
    assert_eq!(e.height, 600);
    // the very next frame's horizontal scale already reflects the new
    // ratio, before any further camera movement
    assert_eq!(e.uniform[0], 750_000);
    assert_eq!(
        e.uniform,
        vec![
            750_000, 0, 0, 0,
            0, 1_000_000, 0, 0,
            0, 0, -1_000_020, -1_000_000,
            225_000, -1_400_000, -1_020_020, -1_000_000,
        ],
    );
    assert_eq!(e.camera.position, Vector { x: 300_000, y: -1_400_000, z: 1_000_000 });
    // a fresh projection call shows the same horizontal scale
    assert_eq!(e.camera.projection()[0], 750_000);
}

#[test]
fn render_plan_draws_whole_mesh_once() {
    let e = Engine::new(1000, 1000);
    let p = e.render();
    assert_eq!(p.clear_r, 0);
    assert_eq!(p.clear_g, 0);
    assert_eq!(p.clear_b, 0);
    assert_eq!(p.clear_a, 1_000_000);
    assert_eq!(p.first_index, 0);
    assert_eq!(p.index_count, 36);
    assert_eq!(p.instance_count, 1);
    assert_eq!(p.uniform_slot, 0);
}

#[test]
fn swapchain_description_is_mailbox_bgra() {
    let d = create_swapchain_description(1024, 768);
    assert_eq!(d.width, 1024);
    assert_eq!(d.height, 768);
    assert_eq!(d.format, TextureFormat::Bgra8UnormSrgb);
    assert_eq!(d.present_mode, PresentMode::Mailbox);
}

#[test]
fn update_ok_and_resize_ok_decide_limits() {
    let mut e = Engine::new(1000, 1000);
    assert!(e.update_ok(16_666));
    assert!(!e.update_ok(-1));
    assert!(!e.update_ok(20_000_000));
    assert!(e.resize_ok(800, 600));
    e.camera.position.x = 15_000_000_000;
    assert!(!e.update_ok(16_666));
}
