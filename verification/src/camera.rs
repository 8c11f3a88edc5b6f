//! The camera: pose, frustum parameters, movement from held input, and the
//! combined projection-rotation-view matrix handed to the backend each frame.

use vstd::prelude::*;

use crate::fixed::{fxm, fxd, fx_mul, fx_div, tan_fix, tan_spec, lemma_fxm_bound,
    lemma_fxd_bound, lemma_fxm_one, lemma_sin_cos_at_zero, lemma_div_exact, FX_ONE};
use crate::input_state::InputState;
use crate::types::Vector;
use crate::utils::{deg_to_rad, deg_to_rad_spec, rotation, rotation_spec, mat4, mat_mul,
    mat_mul_spec, matrix4_to_array, mat_unflatten_spec, lemma_mat_mul_bound,
    lemma_unflatten_flatten, Mat4Spec};

verus! {

/// The magnitude the position components must stay under for the combined
/// matrix to be computed without overflow: a machine limit of twenty
/// thousand world units.
pub const POS_LIMIT: i64 = 20_000_000_000;

/// The magnitude the frustum-derived matrix entries must stay under: a
/// machine limit of two thousand, far beyond any non-degenerate frustum.
pub const PROJ_LIMIT: i64 = 2_000_000_000;

/// The magnitude the frustum parameters themselves must stay under: a
/// machine limit of one million units.
pub const PARAM_LIMIT: i64 = 1_000_000_000_000;

/// The movable camera. Angles in `rotation` are in millionths of a radian;
/// `fov` is in millionths of a degree; all other scalars are in millionths
/// of a world unit.
#[derive(Clone, Copy, Debug, PartialEq, Eq, Structural)]
pub struct Camera {
    pub near: i64,
    pub far: i64,
    pub fov: i64,
    pub aspect_ratio: i64,
    pub position: Vector,
    pub rotation: Vector,
    pub speed: i64,
}

/// The distance one held action moves or turns the camera during one tick:
/// `speed * delta_time`, in fixed point.
pub open spec fn step_spec(c: Camera, delta_time: i64) -> int {
    fxm(c.speed as int, delta_time as int)
}

/// The camera after one tick of movement: every held action has added or
/// subtracted exactly one step on its axis; nothing else has changed.
pub open spec fn camera_update_spec(c: Camera, input: InputState, delta_time: i64) -> Camera {
    let s = step_spec(c, delta_time);
    Camera {
        position: Vector {
            x: (c.position.x
                - (if input.left.is_down { s } else { 0 })
                + (if input.right.is_down { s } else { 0 })) as i64,
            y: (c.position.y
                - (if input.up.is_down { s } else { 0 })
                + (if input.down.is_down { s } else { 0 })) as i64,
            z: (c.position.z
                + (if input.forward.is_down { s } else { 0 })
                - (if input.back.is_down { s } else { 0 })) as i64,
        },
        rotation: Vector {
            x: (c.rotation.x
                + (if input.look_up.is_down { s } else { 0 })
                - (if input.look_down.is_down { s } else { 0 })) as i64,
            y: (c.rotation.y
                - (if input.look_left.is_down { s } else { 0 })
                + (if input.look_right.is_down { s } else { 0 })) as i64,
            z: c.rotation.z,
        },
        ..c
    }
}

/// The radian half-angle of the field of view: `fov / 2`, converted from
/// degrees.
pub open spec fn half_fov_rad_spec(c: Camera) -> int {
    deg_to_rad_spec(fxm(c.fov as int, 500_000))
}

/// The focal scale of the frustum: the reciprocal of the tangent of the
/// half field of view.
pub open spec fn focal_spec(c: Camera) -> int {
    fxd(FX_ONE as int, tan_spec(half_fov_rad_spec(c)))
}

/// The horizontal scale of the frustum: the focal scale over the aspect
/// ratio.
pub open spec fn proj_x_spec(c: Camera) -> int {
    fxd(focal_spec(c), c.aspect_ratio as int)
}

/// The depth-mapping coefficient `(far + near) / (near - far)`.
pub open spec fn proj_z_spec(c: Camera) -> int {
    fxd(c.far + c.near, c.near - c.far)
}

/// The depth-mapping offset `2 * far * near / (near - far)`.
pub open spec fn proj_w_spec(c: Camera) -> int {
    fxd(fxm(fxm(2_000_000, c.far as int), c.near as int), c.near - c.far)
}

/// The symmetric-frustum perspective block, column by column. The lone
/// `-1` in the third column turns eye-space depth into the homogeneous
/// coordinate.
pub open spec fn projection_matrix_spec(c: Camera) -> Mat4Spec {
    Mat4Spec {
        c0r0: proj_x_spec(c), c0r1: 0, c0r2: 0, c0r3: 0,
        c1r0: 0, c1r1: focal_spec(c), c1r2: 0, c1r3: 0,
        c2r0: 0, c2r1: 0, c2r2: proj_z_spec(c), c2r3: -(FX_ONE as int),
        c3r0: 0, c3r1: 0, c3r2: proj_w_spec(c), c3r3: 0,
    }
}

/// The view block: a pure translation by the camera position, with no
/// orientation folded in — all orientation comes from the separate
/// rotation matrix.
pub open spec fn view_matrix_spec(c: Camera) -> Mat4Spec {
    Mat4Spec {
        c0r0: FX_ONE as int, c0r1: 0, c0r2: 0, c0r3: 0,
        c1r0: 0, c1r1: FX_ONE as int, c1r2: 0, c1r3: 0,
        c2r0: 0, c2r1: 0, c2r2: FX_ONE as int, c2r3: 0,
        c3r0: c.position.x as int, c3r1: c.position.y as int, c3r2: c.position.z as int,
        c3r3: FX_ONE as int,
    }
}

/// The combined per-frame transform, multiplied left to right as
/// `projection * rotation * view`: applied to a column vector, a vertex is
/// translated first, rotated second and projected last. This order is a
/// hard contract with the backend.
pub open spec fn camera_matrix_spec(c: Camera) -> Mat4Spec {
    mat_mul_spec(
        mat_mul_spec(projection_matrix_spec(c), rotation_spec(c.rotation)),
        view_matrix_spec(c),
    )
}

/// The machine limits under which the combined matrix can be computed:
/// frustum parameters, position and the frustum-derived entries all within
/// their fixed bounds. Any camera a window of sane proportions produces
/// satisfies them; they exclude only poses and frusta that would overflow
/// the fixed-point arithmetic.
pub open spec fn projectable(c: Camera) -> bool {
    &&& -PARAM_LIMIT <= c.near <= PARAM_LIMIT
    &&& -PARAM_LIMIT <= c.far <= PARAM_LIMIT
    &&& -PARAM_LIMIT <= c.fov <= PARAM_LIMIT
    &&& -PARAM_LIMIT <= c.aspect_ratio <= PARAM_LIMIT
    &&& -POS_LIMIT <= c.position.x <= POS_LIMIT
    &&& -POS_LIMIT <= c.position.y <= POS_LIMIT
    &&& -POS_LIMIT <= c.position.z <= POS_LIMIT
    &&& -PROJ_LIMIT <= focal_spec(c) <= PROJ_LIMIT
    &&& -PROJ_LIMIT <= proj_x_spec(c) <= PROJ_LIMIT
    &&& -PROJ_LIMIT <= proj_z_spec(c) <= PROJ_LIMIT
    &&& -PROJ_LIMIT <= proj_w_spec(c) <= PROJ_LIMIT
}

impl Camera {
    /// A camera at the fixed spawn pose, looking straight ahead, with the
    /// default speed of five units per second. No argument is validated:
    /// out-of-range parameters later yield a degenerate but defined matrix.
    pub fn new(aspect_ratio: i64, near: i64, far: i64, fov: i64) -> (c: Camera)
        ensures
            c == (Camera {
                near,
                far,
                fov,
                aspect_ratio,
                position: Vector { x: 300_000, y: -1_400_000i64, z: 1_000_000 },
                rotation: Vector { x: 0, y: 0, z: 0 },
                speed: 5_000_000,
            }),
    {
        Camera {
            aspect_ratio,
            near,
            far,
            fov,
            position: Vector::new(300_000, -1_400_000, 1_000_000),
            rotation: Vector::new(0, 0, 0),
            speed: 5_000_000,
        }
    }

    /// Advances the pose by one tick: every held action adds or subtracts
    /// exactly one step of `speed * delta_time` on its axis, independently
    /// — simultaneous directions are not normalized, so a diagonal moves
    /// faster than a single axis. The bounds are machine limits.
    #[verifier::rlimit(50)]
    pub fn update(&mut self, input: &InputState, delta_time: i64)
        requires
            -2_000_000_000_000 <= old(self).speed <= 2_000_000_000_000,
            -2_000_000_000_000 <= delta_time <= 2_000_000_000_000,
            -4_000_000_000_000_000_000 <= old(self).position.x <= 4_000_000_000_000_000_000,
            -4_000_000_000_000_000_000 <= old(self).position.y <= 4_000_000_000_000_000_000,
            -4_000_000_000_000_000_000 <= old(self).position.z <= 4_000_000_000_000_000_000,
            -4_000_000_000_000_000_000 <= old(self).rotation.x <= 4_000_000_000_000_000_000,
            -4_000_000_000_000_000_000 <= old(self).rotation.y <= 4_000_000_000_000_000_000,
        ensures
            final(self).position.z == old(self).position.z
                + (if input.forward.is_down { step_spec(*old(self), delta_time) } else { 0 })
                - (if input.back.is_down { step_spec(*old(self), delta_time) } else { 0 }),
            final(self).position.x == old(self).position.x
                - (if input.left.is_down { step_spec(*old(self), delta_time) } else { 0 })
                + (if input.right.is_down { step_spec(*old(self), delta_time) } else { 0 }),
            final(self).position.y == old(self).position.y
                - (if input.up.is_down { step_spec(*old(self), delta_time) } else { 0 })
                + (if input.down.is_down { step_spec(*old(self), delta_time) } else { 0 }),
            final(self).rotation.x == old(self).rotation.x
                + (if input.look_up.is_down { step_spec(*old(self), delta_time) } else { 0 })
                - (if input.look_down.is_down { step_spec(*old(self), delta_time) } else { 0 }),
            final(self).rotation.y == old(self).rotation.y
                - (if input.look_left.is_down { step_spec(*old(self), delta_time) } else { 0 })
                + (if input.look_right.is_down { step_spec(*old(self), delta_time) } else { 0 }),
            final(self).rotation.z == old(self).rotation.z,
            final(self).near == old(self).near,
            final(self).far == old(self).far,
            final(self).fov == old(self).fov,
            final(self).aspect_ratio == old(self).aspect_ratio,
            final(self).speed == old(self).speed,
            *final(self) == camera_update_spec(*old(self), *input, delta_time),
    {
        proof {
            lemma_fxm_bound(self.speed as int, delta_time as int,
                2_000_000_000_000, 2_000_000_000_000);
        }
        let step = fx_mul(self.speed, delta_time);
        if input.forward.is_down {
            self.position.z = self.position.z + step;
        }
        if input.back.is_down {
            self.position.z = self.position.z - step;
        }
        if input.left.is_down {
            self.position.x = self.position.x - step;
        }
        if input.right.is_down {
            self.position.x = self.position.x + step;
        }
        if input.look_up.is_down {
            self.rotation.x = self.rotation.x + step;
        }
        if input.look_down.is_down {
            self.rotation.x = self.rotation.x - step;
        }
        if input.look_left.is_down {
            self.rotation.y = self.rotation.y - step;
        }
        if input.look_right.is_down {
            self.rotation.y = self.rotation.y + step;
        }
        if input.up.is_down {
            self.position.y = self.position.y - step;
        }
        if input.down.is_down {
            self.position.y = self.position.y + step;
        }
    }

    /// Returns the pose to the origin: position and rotation both zero,
    /// whatever the prior state — deliberately not the spawn position used
    /// at construction.
    pub fn reset(&mut self)
        ensures
            final(self).position == (Vector { x: 0, y: 0, z: 0 }),
            final(self).rotation == (Vector { x: 0, y: 0, z: 0 }),
            final(self).near == old(self).near,
            final(self).far == old(self).far,
            final(self).fov == old(self).fov,
            final(self).aspect_ratio == old(self).aspect_ratio,
            final(self).speed == old(self).speed,
    {
        self.rotation = Vector::new(0, 0, 0);
        self.position = Vector::new(0, 0, 0);
    }

    /// Unconditional absolute placement of the camera.
    pub fn move_to(&mut self, x: i64, y: i64, z: i64)
        ensures
            final(self).position == (Vector { x, y, z }),
            final(self).rotation == old(self).rotation,
            final(self).near == old(self).near,
            final(self).far == old(self).far,
            final(self).fov == old(self).fov,
            final(self).aspect_ratio == old(self).aspect_ratio,
            final(self).speed == old(self).speed,
    {
        self.position.x = x;
        self.position.y = y;
        self.position.z = z;
    }

    /// The flattened combined matrix for the current pose, column-major,
    /// ready for the uniform buffer.
    pub fn projection(&self) -> (r: Vec<i64>)
        requires
            projectable(*self),
        ensures
            r@.len() == 16,
            mat_unflatten_spec(r@)@ == camera_matrix_spec(*self),
    {
        let m = self.create_projection_matrix();
        proof {
            lemma_unflatten_flatten(m);
        }
        matrix4_to_array(&m)
    }

    /// Builds the combined matrix `projection * rotation * view`, in that
    /// multiplication order.
    fn create_projection_matrix(&self) -> (m: crate::utils::Mat4)
        requires
            projectable(*self),
        ensures
            m@ == camera_matrix_spec(*self),
    {
        proof {
            lemma_fxm_bound(self.fov as int, 500_000, PARAM_LIMIT as int, 500_000);
        }
        let half_fov = fx_mul(self.fov, 500_000);
        let fov_rad = deg_to_rad(half_fov);
        let t = tan_fix(fov_rad);
        proof {
            lemma_fxd_bound(FX_ONE as int, t as int);
            assert(fxd(FX_ONE as int, t as int) == focal_spec(*self));
        }
        let focal = fx_div(FX_ONE, t);
        let x = fx_div(focal, self.aspect_ratio);
        let y = focal;
        let sum = self.far + self.near;
        let diff = self.near - self.far;
        let z = fx_div(sum, diff);
        proof {
            lemma_fxm_bound(2_000_000, self.far as int, 2_000_000, PARAM_LIMIT as int);
        }
        let w1 = fx_mul(2_000_000, self.far);
        proof {
            lemma_fxm_bound(w1 as int, self.near as int,
                2_000_000_000_000, PARAM_LIMIT as int);
        }
        let w2 = fx_mul(w1, self.near);
        let w = fx_div(w2, diff);

        let projection = mat4(
            x, 0, 0, 0,
            0, y, 0, 0,
            0, 0, z, -FX_ONE,
            0, 0, w, 0,
        );
        let rot = rotation(&self.rotation);
        let view = mat4(
            FX_ONE, 0, 0, 0,
            0, FX_ONE, 0, 0,
            0, 0, FX_ONE, 0,
            self.position.x, self.position.y, self.position.z, FX_ONE,
        );
        proof {
            lemma_mat_mul_bound(projection@, rot@, PROJ_LIMIT as int, 16_000_000);
        }
        let pr = mat_mul(&projection, &rot);
        mat_mul(&pr, &view)
    }
}

/// Decides `projectable` at run time, so a caller can test the machine
/// limits before asking for a matrix.
pub fn is_projectable(c: &Camera) -> (r: bool)
    ensures
        r == projectable(*c),
{
    if !(-PARAM_LIMIT <= c.near && c.near <= PARAM_LIMIT) {
        return false;
    }
    if !(-PARAM_LIMIT <= c.far && c.far <= PARAM_LIMIT) {
        return false;
    }
    if !(-PARAM_LIMIT <= c.fov && c.fov <= PARAM_LIMIT) {
        return false;
    }
    if !(-PARAM_LIMIT <= c.aspect_ratio && c.aspect_ratio <= PARAM_LIMIT) {
        return false;
    }
    if !(-POS_LIMIT <= c.position.x && c.position.x <= POS_LIMIT) {
        return false;
    }
    if !(-POS_LIMIT <= c.position.y && c.position.y <= POS_LIMIT) {
        return false;
    }
    if !(-POS_LIMIT <= c.position.z && c.position.z <= POS_LIMIT) {
        return false;
    }
    proof {
        lemma_fxm_bound(c.fov as int, 500_000, PARAM_LIMIT as int, 500_000);
    }
    let half_fov = fx_mul(c.fov, 500_000);
    let fov_rad = deg_to_rad(half_fov);
    let t = tan_fix(fov_rad);
    proof {
        lemma_fxd_bound(FX_ONE as int, t as int);
    }
    let focal = fx_div(FX_ONE, t);
    if !(-PROJ_LIMIT <= focal && focal <= PROJ_LIMIT) {
        return false;
    }
    if !crate::fixed::fxd_le(focal, c.aspect_ratio, PROJ_LIMIT) {
        return false;
    }
    let sum = c.far + c.near;
    let diff = c.near - c.far;
    if !crate::fixed::fxd_le(sum, diff, PROJ_LIMIT) {
        return false;
    }
    proof {
        lemma_fxm_bound(2_000_000, c.far as int, 2_000_000, PARAM_LIMIT as int);
    }
    let w1 = fx_mul(2_000_000, c.far);
    proof {
        lemma_fxm_bound(w1 as int, c.near as int, 2_000_000_000_000, PARAM_LIMIT as int);
    }
    let w2 = fx_mul(w1, c.near);
    crate::fixed::fxd_le(w2, diff, PROJ_LIMIT)
}

/// The combined matrix is a pure function of the pose and the frustum:
/// cameras that agree on position, rotation, near, far, field of view and
/// aspect ratio — whatever their speeds — produce the same matrix.
pub proof fn lemma_projection_deterministic(a: Camera, b: Camera)
    requires
        a.near == b.near,
        a.far == b.far,
        a.fov == b.fov,
        a.aspect_ratio == b.aspect_ratio,
        a.position == b.position,
        a.rotation == b.rotation,
    ensures
        camera_matrix_spec(a) == camera_matrix_spec(b),
{
}

/// With a level camera — no rotation on any axis — the combined matrix
/// carries the horizontal scale `focal / aspect` as its first entry and the
/// focal scale as its second diagonal entry: exactly the terms a new aspect
/// ratio changes.
pub proof fn lemma_unrotated_scale_entries(c: Camera)
    requires
        c.rotation == (Vector { x: 0, y: 0, z: 0 }),
    ensures
        camera_matrix_spec(c).c0r0 == proj_x_spec(c),
        camera_matrix_spec(c).c1r1 == focal_spec(c),
{
    lemma_sin_cos_at_zero();
    lemma_div_exact(1_000_000_000_000, 1_000_000, 1_000_000, 0);
    vstd::arithmetic::div_mod::lemma_div_basics(1_000_000);
    assert(rotation_spec(c.rotation) == (Mat4Spec {
        c0r0: 1_000_000, c0r1: 0, c0r2: 0, c0r3: 0,
        c1r0: 0, c1r1: 1_000_000, c1r2: 0, c1r3: 0,
        c2r0: 0, c2r1: 0, c2r2: 1_000_000, c2r3: 0,
        c3r0: 0, c3r1: 0, c3r2: 0, c3r3: 1_000_000,
    }));
    lemma_fxm_one(proj_x_spec(c));
    lemma_fxm_one(focal_spec(c));
}

} // verus!
