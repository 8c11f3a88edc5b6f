//! A minimal interactive 3D viewer core: a movable camera over fixed-point
//! arithmetic, the transform pipeline that turns its pose into a flattened
//! projection matrix, the held-key input state, and the per-frame render and
//! resize orchestration. The GPU and windowing backends live outside this
//! crate and consume the plain values produced here.
//!
//! All scalar quantities are fixed-point numbers: an `i64` counting millionths
//! of a unit (see `fixed`). Matrices are kept in column-major order, the
//! convention the graphics backend consumes.

pub mod fixed;
pub mod types;
pub mod utils;
pub mod input_state;
pub mod camera;
pub mod engine;
