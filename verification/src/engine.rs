//! The frame orchestrator: it owns the camera, the held-input flags and the
//! model of the GPU-side state — the uniform-buffer contents, the mesh size
//! and the presentation-surface dimensions. Each tick it applies one event,
//! advances the camera and recomputes the uniform data; on a resize it
//! recomputes the aspect ratio and the uniform data at once. The backend
//! layer performs the actual buffer writes, surface recreation and draw
//! submission from the plain values computed here.

use vstd::prelude::*;

use crate::camera::{Camera, camera_matrix_spec, camera_update_spec, projectable,
    is_projectable, PROJ_LIMIT};
use crate::fixed::{fxd, fx_div, lemma_fxm_bound};
use crate::input_state::{InputState, Key, all_released};
use crate::types::{Vector, Vertex};
use crate::utils::mat_unflatten_spec;

verus! {

/// The near plane distance the viewer starts with: a hundredth of a unit.
pub const F_NEAR: i64 = 10_000;

/// The far plane distance the viewer starts with: a thousand units.
pub const F_FAR: i64 = 1_000_000_000;

/// The field of view the viewer starts with: ninety degrees.
pub const F_FOV: i64 = 90_000_000;

/// The ceiling on the camera speed the orchestrator drives: a thousand
/// units per second. A machine limit.
pub const SPEED_LIMIT: i64 = 1_000_000_000;

/// The ceiling on one tick's duration: ten seconds. A machine limit.
pub const DT_LIMIT: i64 = 10_000_000;

/// The pose headroom a tick must leave: at most ten thousand units from
/// the origin on each axis, so that one full step cannot overflow the
/// projectable range. A machine limit.
pub const TICK_POS_LIMIT: i64 = 10_000_000_000;

/// The physical keys the viewer reacts to; anything else arrives as
/// `Other` and is ignored.
#[derive(Clone, Copy, Debug, PartialEq, Eq, Structural)]
pub enum KeyCode {
    W,
    S,
    A,
    D,
    Up,
    Down,
    Left,
    Right,
    Space,
    LControl,
    R,
    Other,
}

/// One windowing event, reduced to what the orchestrator reacts to: a key
/// edge, or anything else.
#[derive(Clone, Copy, Debug, PartialEq, Eq, Structural)]
pub enum InputEvent {
    KeyPressed(KeyCode),
    KeyReleased(KeyCode),
    Other,
}

/// The color formats the presentation surface may use.
#[derive(Clone, Copy, Debug, PartialEq, Eq, Structural)]
pub enum TextureFormat {
    Bgra8Unorm,
    Bgra8UnormSrgb,
}

/// The presentation modes the surface may run in.
#[derive(Clone, Copy, Debug, PartialEq, Eq, Structural)]
pub enum PresentMode {
    Immediate,
    Mailbox,
    Fifo,
}

/// What the backend needs to rebuild the presentation surface.
#[derive(Clone, Copy, Debug, PartialEq, Eq, Structural)]
pub struct SwapChainDescription {
    pub width: u32,
    pub height: u32,
    pub format: TextureFormat,
    pub present_mode: PresentMode,
}

/// The surface description the viewer always uses: native BGRA with sRGB,
/// and the low-latency mailbox mode, which always shows the newest
/// completed frame and never blocks submission on vsync.
pub fn create_swapchain_description(width: u32, height: u32) -> (d: SwapChainDescription)
    ensures
        d == (SwapChainDescription {
            width,
            height,
            format: TextureFormat::Bgra8UnormSrgb,
            present_mode: PresentMode::Mailbox,
        }),
{
    SwapChainDescription {
        width,
        height,
        format: TextureFormat::Bgra8UnormSrgb,
        present_mode: PresentMode::Mailbox,
    }
}

/// The description of the one render pass a frame records: clear to the
/// fixed background color, bind the uniform at its slot, draw the whole
/// indexed mesh once.
#[derive(Clone, Copy, Debug, PartialEq, Eq, Structural)]
pub struct RenderPlan {
    /// Background color, as fixed-point red, green, blue and alpha.
    pub clear_r: i64,
    pub clear_g: i64,
    pub clear_b: i64,
    pub clear_a: i64,
    pub first_index: u32,
    pub index_count: u32,
    pub instance_count: u32,
    pub uniform_slot: u32,
}

/// The input flags after one key edge: the flag of the mapped action is
/// set or cleared; unmapped keys and the reset key change no flag.
pub open spec fn apply_key_flag(s: InputState, code: KeyCode, down: bool) -> InputState {
    match code {
        KeyCode::W => InputState { forward: Key { is_down: down }, ..s },
        KeyCode::S => InputState { back: Key { is_down: down }, ..s },
        KeyCode::A => InputState { left: Key { is_down: down }, ..s },
        KeyCode::D => InputState { right: Key { is_down: down }, ..s },
        KeyCode::Up => InputState { look_up: Key { is_down: down }, ..s },
        KeyCode::Down => InputState { look_down: Key { is_down: down }, ..s },
        KeyCode::Left => InputState { look_left: Key { is_down: down }, ..s },
        KeyCode::Right => InputState { look_right: Key { is_down: down }, ..s },
        KeyCode::Space => InputState { up: Key { is_down: down }, ..s },
        KeyCode::LControl => InputState { down: Key { is_down: down }, ..s },
        KeyCode::R => s,
        KeyCode::Other => s,
    }
}

/// The input flags and the camera after one event. A press of the reset
/// key is a side channel: it returns the camera pose to the origin instead
/// of setting a flag, so it acts on the press edge alone.
pub open spec fn apply_input_event(s: InputState, c: Camera, ev: InputEvent)
    -> (InputState, Camera) {
    match ev {
        InputEvent::KeyPressed(code) => if code == KeyCode::R {
            (s, Camera {
                position: Vector { x: 0, y: 0, z: 0 },
                rotation: Vector { x: 0, y: 0, z: 0 },
                ..c
            })
        } else {
            (apply_key_flag(s, code, true), c)
        },
        InputEvent::KeyReleased(code) => (apply_key_flag(s, code, false), c),
        InputEvent::Other => (s, c),
    }
}

/// The aspect ratio of a surface: width over height in fixed point, zero
/// for a degenerate height of zero.
pub open spec fn aspect_spec(width: u32, height: u32) -> int {
    fxd(width as int * 1_000_000, height as int * 1_000_000)
}

/// The same camera with another aspect ratio.
pub open spec fn with_aspect(c: Camera, a: int) -> Camera {
    Camera { aspect_ratio: a as i64, ..c }
}

/// The flat sequence `u` holds exactly the combined matrix of camera `c`.
pub open spec fn uniform_ok(u: Seq<i64>, c: Camera) -> bool {
    &&& u.len() == 16
    &&& mat_unflatten_spec(u)@ == camera_matrix_spec(c)
}

/// The twenty-four cube vertices: six faces of four corners each, corners
/// unshared so that every face carries one flat color, at one unit from the
/// origin on each axis.
pub open spec fn cube_vertices_spec() -> Seq<Vertex> {
    seq![
        Vertex { position: Vector { x: -1000000i64, y: -1000000i64, z: 1000000 }, color: Vector { x: 1000000, y: 0, z: 0 } },
        Vertex { position: Vector { x: 1000000, y: -1000000i64, z: 1000000 }, color: Vector { x: 1000000, y: 0, z: 0 } },
        Vertex { position: Vector { x: 1000000, y: 1000000, z: 1000000 }, color: Vector { x: 1000000, y: 0, z: 0 } },
        Vertex { position: Vector { x: -1000000i64, y: 1000000, z: 1000000 }, color: Vector { x: 1000000, y: 0, z: 0 } },
        Vertex { position: Vector { x: -1000000i64, y: 1000000, z: -1000000i64 }, color: Vector { x: 0, y: 0, z: 1000000 } },
        Vertex { position: Vector { x: 1000000, y: 1000000, z: -1000000i64 }, color: Vector { x: 0, y: 0, z: 1000000 } },
        Vertex { position: Vector { x: 1000000, y: -1000000i64, z: -1000000i64 }, color: Vector { x: 0, y: 0, z: 1000000 } },
        Vertex { position: Vector { x: -1000000i64, y: -1000000i64, z: -1000000i64 }, color: Vector { x: 0, y: 0, z: 1000000 } },
        Vertex { position: Vector { x: 1000000, y: -1000000i64, z: -1000000i64 }, color: Vector { x: 0, y: 1000000, z: 0 } },
        Vertex { position: Vector { x: 1000000, y: 1000000, z: -1000000i64 }, color: Vector { x: 0, y: 1000000, z: 0 } },
        Vertex { position: Vector { x: 1000000, y: 1000000, z: 1000000 }, color: Vector { x: 0, y: 1000000, z: 0 } },
        Vertex { position: Vector { x: 1000000, y: -1000000i64, z: 1000000 }, color: Vector { x: 0, y: 1000000, z: 0 } },
        Vertex { position: Vector { x: -1000000i64, y: -1000000i64, z: 1000000 }, color: Vector { x: 1000000, y: 0, z: 1000000 } },
        Vertex { position: Vector { x: -1000000i64, y: 1000000, z: 1000000 }, color: Vector { x: 1000000, y: 0, z: 1000000 } },
        Vertex { position: Vector { x: -1000000i64, y: 1000000, z: -1000000i64 }, color: Vector { x: 1000000, y: 0, z: 1000000 } },
        Vertex { position: Vector { x: -1000000i64, y: -1000000i64, z: -1000000i64 }, color: Vector { x: 1000000, y: 0, z: 1000000 } },
        Vertex { position: Vector { x: 1000000, y: 1000000, z: -1000000i64 }, color: Vector { x: 0, y: 1000000, z: 1000000 } },
        Vertex { position: Vector { x: -1000000i64, y: 1000000, z: -1000000i64 }, color: Vector { x: 0, y: 1000000, z: 1000000 } },
        Vertex { position: Vector { x: -1000000i64, y: 1000000, z: 1000000 }, color: Vector { x: 0, y: 1000000, z: 1000000 } },
        Vertex { position: Vector { x: 1000000, y: 1000000, z: 1000000 }, color: Vector { x: 0, y: 1000000, z: 1000000 } },
        Vertex { position: Vector { x: 1000000, y: -1000000i64, z: 1000000 }, color: Vector { x: 1000000, y: 1000000, z: 0 } },
        Vertex { position: Vector { x: -1000000i64, y: -1000000i64, z: 1000000 }, color: Vector { x: 1000000, y: 1000000, z: 0 } },
        Vertex { position: Vector { x: -1000000i64, y: -1000000i64, z: -1000000i64 }, color: Vector { x: 1000000, y: 1000000, z: 0 } },
        Vertex { position: Vector { x: 1000000, y: -1000000i64, z: -1000000i64 }, color: Vector { x: 1000000, y: 1000000, z: 0 } },
    ]
}

/// The thirty-six cube indices: two counter-clockwise triangles for each of
/// the six faces, in the winding the back-face culling expects.
pub open spec fn cube_indices_spec() -> Seq<u16> {
    seq![0u16, 1u16, 2u16, 2u16, 3u16, 0u16, 4u16, 5u16, 6u16, 6u16, 7u16, 4u16, 8u16, 9u16, 10u16, 10u16, 11u16, 8u16, 12u16, 13u16, 14u16, 14u16, 15u16, 12u16, 16u16, 17u16, 18u16, 18u16, 19u16, 16u16, 20u16, 21u16, 22u16, 22u16, 23u16, 20u16]
}


/// The orchestrator's state: the camera, the input flags, and the model of
/// what lives on the GPU side — the uniform-buffer contents, the index
/// count, and the surface dimensions.
pub struct Engine {
    pub camera: Camera,
    pub input: InputState,
    /// The sixteen values the uniform buffer must hold: the flattened
    /// combined matrix of the camera.
    pub uniform: Vec<i64>,
    pub index_buffer_len: u32,
    pub width: u32,
    pub height: u32,
}

/// One tick may be applied: the camera is projectable, speed and duration
/// are in their machine ranges, and the pose leaves headroom for one step.
pub open spec fn update_allowed(e: Engine, delta_time: i64) -> bool {
    &&& projectable(e.camera)
    &&& 0 <= e.camera.speed <= SPEED_LIMIT
    &&& 0 <= delta_time <= DT_LIMIT
    &&& -TICK_POS_LIMIT <= e.camera.position.x <= TICK_POS_LIMIT
    &&& -TICK_POS_LIMIT <= e.camera.position.y <= TICK_POS_LIMIT
    &&& -TICK_POS_LIMIT <= e.camera.position.z <= TICK_POS_LIMIT
    &&& -TICK_POS_LIMIT <= e.camera.rotation.x <= TICK_POS_LIMIT
    &&& -TICK_POS_LIMIT <= e.camera.rotation.y <= TICK_POS_LIMIT
    &&& -TICK_POS_LIMIT <= e.camera.rotation.z <= TICK_POS_LIMIT
}

/// A resize to these dimensions may be applied: the camera stays
/// projectable under the new aspect ratio.
pub open spec fn resize_allowed(e: Engine, width: u32, height: u32) -> bool {
    projectable(with_aspect(e.camera, aspect_spec(width, height)))
}

/// The aspect ratio of a surface, as the camera consumes it.
fn aspect_of(width: u32, height: u32) -> (a: i64)
    ensures
        a == aspect_spec(width, height),
        0 <= a <= width as int * 1_000_000,
{
    let w: i64 = (width as i64) * 1_000_000;
    let h: i64 = (height as i64) * 1_000_000;
    proof {
        if h != 0 {
            vstd::arithmetic::div_mod::lemma_div_pos_is_pos(
                w as int * 1_000_000, h as int);
            vstd::arithmetic::div_mod::lemma_div_is_ordered_by_denominator(
                w as int * 1_000_000, 1_000_000, h as int);
            vstd::arithmetic::div_mod::lemma_div_multiples_vanish(
                width as int * 1_000_000, 1_000_000);
        }
    }
    fx_div(w, h)
}

impl Engine {
    /// The cube mesh: the vertex list and the index list, immutable after
    /// creation.
    pub fn create_verticies() -> (r: (Vec<Vertex>, Vec<u16>))
        ensures
            r.0@ == cube_vertices_spec(),
            r.1@ == cube_indices_spec(),
            r.1@.len() == 36,
    {
        let mut verticies: Vec<Vertex> = Vec::new();
        verticies.push(Vertex::new(-1000000, -1000000, 1000000, 1000000, 0, 0));
        verticies.push(Vertex::new(1000000, -1000000, 1000000, 1000000, 0, 0));
        verticies.push(Vertex::new(1000000, 1000000, 1000000, 1000000, 0, 0));
        verticies.push(Vertex::new(-1000000, 1000000, 1000000, 1000000, 0, 0));
        verticies.push(Vertex::new(-1000000, 1000000, -1000000, 0, 0, 1000000));
        verticies.push(Vertex::new(1000000, 1000000, -1000000, 0, 0, 1000000));
        verticies.push(Vertex::new(1000000, -1000000, -1000000, 0, 0, 1000000));
        verticies.push(Vertex::new(-1000000, -1000000, -1000000, 0, 0, 1000000));
        verticies.push(Vertex::new(1000000, -1000000, -1000000, 0, 1000000, 0));
        verticies.push(Vertex::new(1000000, 1000000, -1000000, 0, 1000000, 0));
        verticies.push(Vertex::new(1000000, 1000000, 1000000, 0, 1000000, 0));
        verticies.push(Vertex::new(1000000, -1000000, 1000000, 0, 1000000, 0));
        verticies.push(Vertex::new(-1000000, -1000000, 1000000, 1000000, 0, 1000000));
        verticies.push(Vertex::new(-1000000, 1000000, 1000000, 1000000, 0, 1000000));
        verticies.push(Vertex::new(-1000000, 1000000, -1000000, 1000000, 0, 1000000));
        verticies.push(Vertex::new(-1000000, -1000000, -1000000, 1000000, 0, 1000000));
        verticies.push(Vertex::new(1000000, 1000000, -1000000, 0, 1000000, 1000000));
        verticies.push(Vertex::new(-1000000, 1000000, -1000000, 0, 1000000, 1000000));
        verticies.push(Vertex::new(-1000000, 1000000, 1000000, 0, 1000000, 1000000));
        verticies.push(Vertex::new(1000000, 1000000, 1000000, 0, 1000000, 1000000));
        verticies.push(Vertex::new(1000000, -1000000, 1000000, 1000000, 1000000, 0));
        verticies.push(Vertex::new(-1000000, -1000000, 1000000, 1000000, 1000000, 0));
        verticies.push(Vertex::new(-1000000, -1000000, -1000000, 1000000, 1000000, 0));
        verticies.push(Vertex::new(1000000, -1000000, -1000000, 1000000, 1000000, 0));
        let mut indicies: Vec<u16> = Vec::new();
        indicies.push(0);
        indicies.push(1);
        indicies.push(2);
        indicies.push(2);
        indicies.push(3);
        indicies.push(0);
        indicies.push(4);
        indicies.push(5);
        indicies.push(6);
        indicies.push(6);
        indicies.push(7);
        indicies.push(4);
        indicies.push(8);
        indicies.push(9);
        indicies.push(10);
        indicies.push(10);
        indicies.push(11);
        indicies.push(8);
        indicies.push(12);
        indicies.push(13);
        indicies.push(14);
        indicies.push(14);
        indicies.push(15);
        indicies.push(12);
        indicies.push(16);
        indicies.push(17);
        indicies.push(18);
        indicies.push(18);
        indicies.push(19);
        indicies.push(16);
        indicies.push(20);
        indicies.push(21);
        indicies.push(22);
        indicies.push(22);
        indicies.push(23);
        indicies.push(20);
        proof {
            assert(verticies@ =~= cube_vertices_spec());
            assert(indicies@ =~= cube_indices_spec());
        }
        (verticies, indicies)
    }

    /// A fresh orchestrator for a surface of the given size: the camera at
    /// its spawn pose with the default frustum, no key held, the mesh
    /// created, and the uniform data already holding the initial combined
    /// matrix. The dimension bounds are machine limits that keep the
    /// initial aspect ratio in the projectable range.
    pub fn new(width: u32, height: u32) -> (e: Engine)
        requires
            1 <= width,
            1 <= height,
            width <= 2000 * height,
            height <= 2000 * width,
        ensures
            e.camera == (Camera {
                near: F_NEAR,
                far: F_FAR,
                fov: F_FOV,
                aspect_ratio: aspect_spec(width, height) as i64,
                position: Vector { x: 300_000, y: -1_400_000i64, z: 1_000_000 },
                rotation: Vector { x: 0, y: 0, z: 0 },
                speed: 5_000_000,
            }),
            e.input == all_released(),
            e.index_buffer_len == 36,
            e.width == width,
            e.height == height,
            uniform_ok(e.uniform@, e.camera),
            projectable(e.camera),
    {
        let (verticies, indicies) = Engine::create_verticies();
        let aspect = aspect_of(width, height);
        let camera = Camera::new(aspect, F_NEAR, F_FAR, F_FOV);
        proof {
            lemma_initial_camera_projectable(camera, width, height);
        }
        let uniform = camera.projection();
        let index_buffer_len = indicies.len() as u32;
        Engine {
            camera,
            input: InputState::new(),
            uniform,
            index_buffer_len,
            width,
            height,
        }
    }

    /// Applies one windowing event to the input flags, and, for a press of
    /// the reset key, to the camera pose. Unmapped keys are ignored. The
    /// tick duration plays no part here; it is accepted for symmetry with
    /// the frame update.
    pub fn get_input_state(&mut self, event: &InputEvent, _delta_time: i64)
        ensures
            final(self).input == apply_input_event(old(self).input, old(self).camera, *event).0,
            final(self).camera == apply_input_event(old(self).input, old(self).camera, *event).1,
            final(self).uniform == old(self).uniform,
            final(self).index_buffer_len == old(self).index_buffer_len,
            final(self).width == old(self).width,
            final(self).height == old(self).height,
    {
        match event {
            InputEvent::KeyPressed(code) => {
                match code {
                    KeyCode::W => { self.input.forward.is_down = true; }
                    KeyCode::S => { self.input.back.is_down = true; }
                    KeyCode::A => { self.input.left.is_down = true; }
                    KeyCode::D => { self.input.right.is_down = true; }
                    KeyCode::Up => { self.input.look_up.is_down = true; }
                    KeyCode::Down => { self.input.look_down.is_down = true; }
                    KeyCode::Left => { self.input.look_left.is_down = true; }
                    KeyCode::Right => { self.input.look_right.is_down = true; }
                    KeyCode::Space => { self.input.up.is_down = true; }
                    KeyCode::LControl => { self.input.down.is_down = true; }
                    KeyCode::R => { self.camera.reset(); }
                    KeyCode::Other => {}
                }
            }
            InputEvent::KeyReleased(code) => {
                match code {
                    KeyCode::W => { self.input.forward.is_down = false; }
                    KeyCode::S => { self.input.back.is_down = false; }
                    KeyCode::A => { self.input.left.is_down = false; }
                    KeyCode::D => { self.input.right.is_down = false; }
                    KeyCode::Up => { self.input.look_up.is_down = false; }
                    KeyCode::Down => { self.input.look_down.is_down = false; }
                    KeyCode::Left => { self.input.look_left.is_down = false; }
                    KeyCode::Right => { self.input.look_right.is_down = false; }
                    KeyCode::Space => { self.input.up.is_down = false; }
                    KeyCode::LControl => { self.input.down.is_down = false; }
                    KeyCode::R => {}
                    KeyCode::Other => {}
                }
            }
            InputEvent::Other => {}
        }
    }

    /// One tick: apply the event, advance the camera by the held actions,
    /// and recompute the uniform data, which the backend then writes to the
    /// uniform buffer — exactly one uniform update per tick.
    pub fn update(&mut self, event: &InputEvent, delta_time: i64)
        requires
            update_allowed(*old(self), delta_time),
        ensures
            final(self).input == apply_input_event(old(self).input, old(self).camera, *event).0,
            final(self).camera == camera_update_spec(
                apply_input_event(old(self).input, old(self).camera, *event).1,
                apply_input_event(old(self).input, old(self).camera, *event).0,
                delta_time,
            ),
            uniform_ok(final(self).uniform@, final(self).camera),
            final(self).index_buffer_len == old(self).index_buffer_len,
            final(self).width == old(self).width,
            final(self).height == old(self).height,
    {
        self.get_input_state(event, delta_time);
        proof {
            lemma_fxm_bound(self.camera.speed as int, delta_time as int,
                SPEED_LIMIT as int, DT_LIMIT as int);
        }
        let input = self.input;
        self.camera.update(&input, delta_time);
        proof {
            lemma_frustum_fields_agree(*old(self), *self);
        }
        self.submit_uniform_data();
    }

    /// Whether `update` may be applied now, decidable by the caller before
    /// each tick.
    pub fn update_ok(&self, delta_time: i64) -> (r: bool)
        ensures
            r == update_allowed(*self, delta_time),
    {
        is_projectable(&self.camera)
            && 0 <= self.camera.speed && self.camera.speed <= SPEED_LIMIT
            && 0 <= delta_time && delta_time <= DT_LIMIT
            && -TICK_POS_LIMIT <= self.camera.position.x
            && self.camera.position.x <= TICK_POS_LIMIT
            && -TICK_POS_LIMIT <= self.camera.position.y
            && self.camera.position.y <= TICK_POS_LIMIT
            && -TICK_POS_LIMIT <= self.camera.position.z
            && self.camera.position.z <= TICK_POS_LIMIT
            && -TICK_POS_LIMIT <= self.camera.rotation.x
            && self.camera.rotation.x <= TICK_POS_LIMIT
            && -TICK_POS_LIMIT <= self.camera.rotation.y
            && self.camera.rotation.y <= TICK_POS_LIMIT
            && -TICK_POS_LIMIT <= self.camera.rotation.z
            && self.camera.rotation.z <= TICK_POS_LIMIT
    }

    /// The draw description for one frame: clear to the fixed black
    /// background, bind the uniform at slot zero, draw the whole indexed
    /// mesh once. The backend acquires the presentable image — where none
    /// arrives within its timeout the condition is fatal — records this one
    /// pass, and submits it: exactly one draw submission per frame.
    pub fn render(&self) -> (p: RenderPlan)
        ensures
            p == (RenderPlan {
                clear_r: 0,
                clear_g: 0,
                clear_b: 0,
                clear_a: 1_000_000,
                first_index: 0,
                index_count: self.index_buffer_len,
                instance_count: 1,
                uniform_slot: 0,
            }),
    {
        RenderPlan {
            clear_r: 0,
            clear_g: 0,
            clear_b: 0,
            clear_a: 1_000_000,
            first_index: 0,
            index_count: self.index_buffer_len,
            instance_count: 1,
            uniform_slot: 0,
        }
    }

    /// A window resize: rebuild the surface at the new dimensions,
    /// recompute the aspect ratio as width over height, and recompute the
    /// uniform data at once, so the very next frame already uses the
    /// correct proportions.
    pub fn window_resized(&mut self, width: u32, height: u32)
        requires
            resize_allowed(*old(self), width, height),
        ensures
            final(self).camera == with_aspect(old(self).camera, aspect_spec(width, height)),
            final(self).width == width,
            final(self).height == height,
            uniform_ok(final(self).uniform@, final(self).camera),
            final(self).input == old(self).input,
            final(self).index_buffer_len == old(self).index_buffer_len,
    {
        self.recreate_swapchain(width, height);
        self.camera.aspect_ratio = aspect_of(width, height);
        self.submit_uniform_data();
    }

    /// Whether `window_resized` may be applied for these dimensions,
    /// decidable by the caller.
    pub fn resize_ok(&self, width: u32, height: u32) -> (r: bool)
        ensures
            r == resize_allowed(*self, width, height),
    {
        let a = aspect_of(width, height);
        let resized = Camera { aspect_ratio: a, ..self.camera };
        is_projectable(&resized)
    }

    /// Recomputes the flattened combined matrix of the current camera: the
    /// bytes the backend must copy into the uniform buffer before the next
    /// draw.
    fn submit_uniform_data(&mut self)
        requires
            projectable(old(self).camera),
        ensures
            uniform_ok(final(self).uniform@, old(self).camera),
            final(self).camera == old(self).camera,
            final(self).input == old(self).input,
            final(self).index_buffer_len == old(self).index_buffer_len,
            final(self).width == old(self).width,
            final(self).height == old(self).height,
    {
        self.uniform = self.camera.projection();
    }

    /// Notes the new surface dimensions; the backend recreates the
    /// presentation surface from them.
    fn recreate_swapchain(&mut self, width: u32, height: u32)
        ensures
            final(self).width == width,
            final(self).height == height,
            final(self).camera == old(self).camera,
            final(self).input == old(self).input,
            final(self).uniform == old(self).uniform,
            final(self).index_buffer_len == old(self).index_buffer_len,
    {
        self.width = width;
        self.height = height;
    }
}

/// Two engine states whose cameras share the frustum parameters derive the
/// same frustum entries, whatever their poses: the derived entries read
/// nothing but near, far, field of view and aspect ratio.
proof fn lemma_frustum_fields_agree(a: Engine, b: Engine)
    requires
        a.camera.near == b.camera.near,
        a.camera.far == b.camera.far,
        a.camera.fov == b.camera.fov,
        a.camera.aspect_ratio == b.camera.aspect_ratio,
    ensures
        crate::camera::focal_spec(a.camera) == crate::camera::focal_spec(b.camera),
        crate::camera::proj_x_spec(a.camera) == crate::camera::proj_x_spec(b.camera),
        crate::camera::proj_z_spec(a.camera) == crate::camera::proj_z_spec(b.camera),
        crate::camera::proj_w_spec(a.camera) == crate::camera::proj_w_spec(b.camera),
{
}

/// The camera the orchestrator starts with is projectable for any surface
/// of sane proportions.
proof fn lemma_initial_camera_projectable(c: Camera, width: u32, height: u32)
    requires
        1 <= width,
        1 <= height,
        width <= 2000 * height,
        height <= 2000 * width,
        c == (Camera {
            near: F_NEAR,
            far: F_FAR,
            fov: F_FOV,
            aspect_ratio: aspect_spec(width, height) as i64,
            position: Vector { x: 300_000, y: -1_400_000i64, z: 1_000_000 },
            rotation: Vector { x: 0, y: 0, z: 0 },
            speed: 5_000_000,
        }),
    ensures
        projectable(c),
{
    let w = width as int;
    let h = height as int;
    let a = aspect_spec(width, height);
    assert(a == (w * 1_000_000 * 1_000_000) / (h * 1_000_000));
    // the aspect ratio lies between 1/2000 and 2000
    vstd::arithmetic::div_mod::lemma_div_is_ordered(
        500 * (h * 1_000_000), w * 1_000_000 * 1_000_000, h * 1_000_000);
    vstd::arithmetic::div_mod::lemma_div_multiples_vanish(500, h * 1_000_000);
    vstd::arithmetic::div_mod::lemma_div_is_ordered(
        w * 1_000_000 * 1_000_000, 2_000_000_000 * (h * 1_000_000), h * 1_000_000);
    vstd::arithmetic::div_mod::lemma_div_multiples_vanish(2_000_000_000, h * 1_000_000);
    assert(500 <= a <= 2_000_000_000);
    // the focal scale of a ninety-degree field of view is exactly one
    crate::fixed::lemma_div_exact(45_000_000_000_000, 1_000_000, 45_000_000, 0);
    assert(crate::fixed::fxm(F_FOV as int, 500_000) == 45_000_000);
    crate::fixed::lemma_div_exact(141_371_685_000_000, 1_000_000, 141_371_685, 0);
    crate::fixed::lemma_div_exact(141_371_685_000_000, 180_000_000, 785_398, 45_000_000);
    assert(crate::utils::deg_to_rad_spec(45_000_000) == 785_398);
    crate::fixed::lemma_trig_at_quarter_pi();
    crate::fixed::lemma_div_exact(1_000_000_000_000, 1_000_000, 1_000_000, 0);
    assert(crate::camera::focal_spec(c) == 1_000_000);
    // the horizontal scale is the focal scale over the aspect ratio
    assert(crate::camera::proj_x_spec(c) == 1_000_000_000_000int / a);
    vstd::arithmetic::div_mod::lemma_div_pos_is_pos(1_000_000_000_000, a);
    vstd::arithmetic::div_mod::lemma_div_is_ordered_by_denominator(
        1_000_000_000_000, 500, a);
    assert(crate::camera::proj_x_spec(c) <= PROJ_LIMIT);
    // the two depth coefficients are small constants of near and far
    crate::fixed::lemma_div_exact(1_000_010_000_000_000, 999_990_000, 1_000_020, 200_000);
    assert(crate::camera::proj_z_spec(c) == -1_000_020);
    crate::fixed::lemma_div_exact(2_000_000_000_000_000, 1_000_000, 2_000_000_000, 0);
    crate::fixed::lemma_div_exact(20_000_000_000_000, 1_000_000, 20_000_000, 0);
    crate::fixed::lemma_div_exact(20_000_000_000_000, 999_990_000, 20_000, 200_000_000);
    assert(crate::camera::proj_w_spec(c) == -20_000);
}

/// Resetting is edge-triggered: processing one press of the reset key
/// returns the camera pose to the origin, and processing any other event —
/// in particular the ticks that pass while the key stays held — leaves the
/// pose untouched, so one press resets exactly once.
pub proof fn lemma_reset_edge_triggered(s: InputState, c: Camera, ev: InputEvent)
    ensures
        ev == InputEvent::KeyPressed(KeyCode::R) ==> {
            &&& apply_input_event(s, c, ev).1.position == (Vector { x: 0, y: 0, z: 0 })
            &&& apply_input_event(s, c, ev).1.rotation == (Vector { x: 0, y: 0, z: 0 })
        },
        ev != InputEvent::KeyPressed(KeyCode::R) ==> apply_input_event(s, c, ev).1 == c,
{
}

} // verus!
