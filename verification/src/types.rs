//! Plain value types shared by the camera and the mesh.

use vstd::prelude::*;

verus! {

/// A three-component fixed-point vector, used for positions, Euler
/// rotations and face colors.
#[derive(Clone, Copy, Debug, PartialEq, Eq, Structural)]
pub struct Vector {
    pub x: i64,
    pub y: i64,
    pub z: i64,
}

impl Vector {
    pub fn new(x: i64, y: i64, z: i64) -> (r: Vector)
        ensures
            r == (Vector { x, y, z }),
    {
        Vector { x, y, z }
    }
}

/// A two-component value, used for surface sizes.
#[derive(Debug)]
pub struct Vec2<T> {
    pub x: T,
    pub y: T,
}

/// One cube vertex: a position and a flat face color, both in fixed point.
#[derive(Clone, Copy, Debug, PartialEq, Eq, Structural)]
pub struct Vertex {
    pub position: Vector,
    pub color: Vector,
}

impl Vertex {
    pub fn new(x: i64, y: i64, z: i64, r: i64, g: i64, b: i64) -> (v: Vertex)
        ensures
            v == (Vertex { position: Vector { x, y, z }, color: Vector { x: r, y: g, z: b } }),
    {
        Vertex { position: Vector { x, y, z }, color: Vector { x: r, y: g, z: b } }
    }

    pub fn s_new(position: Vector, color: Vector) -> (v: Vertex)
        ensures
            v == (Vertex { position, color }),
    {
        Vertex { position, color }
    }
}

} // verus!
