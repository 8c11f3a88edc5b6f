//! The 4-by-4 transform matrices of the camera pipeline, over fixed-point
//! scalars, together with degree conversion and the flattening the graphics
//! backend consumes.
//!
//! Matrices are kept in column-major order: the constructor `mat4` takes its
//! sixteen arguments column by column, and `matrix4_to_array` flattens column
//! by column. Multiplication is the standard linear-algebra product, so
//! `a * b` applied to a column vector applies `b` first.

use vstd::prelude::*;

use crate::fixed::{fxm, fxd, fx_mul, fx_div, sin_fix, cos_fix, sin_spec, cos_spec,
    lemma_fxm_bound, FX_ONE, FX_PI};
use crate::types::Vector;

verus! {

/// The magnitude every matrix entry must stay under for a product of two
/// matrices to be computed without overflow: a machine limit.
pub const MAT_LIMIT: i64 = 1_400_000_000_000;

/// A 4-by-4 fixed-point matrix. Field `cCrR` is the entry of column `C`,
/// row `R`.
#[derive(Clone, Copy, Debug, PartialEq, Eq, Structural)]
pub struct Mat4 {
    pub c0r0: i64,
    pub c0r1: i64,
    pub c0r2: i64,
    pub c0r3: i64,
    pub c1r0: i64,
    pub c1r1: i64,
    pub c1r2: i64,
    pub c1r3: i64,
    pub c2r0: i64,
    pub c2r1: i64,
    pub c2r2: i64,
    pub c2r3: i64,
    pub c3r0: i64,
    pub c3r1: i64,
    pub c3r2: i64,
    pub c3r3: i64,
}

/// The mathematical-integer image of a matrix: entries free of any
/// fixed-width bound, for specifications.
pub struct Mat4Spec {
    pub c0r0: int,
    pub c0r1: int,
    pub c0r2: int,
    pub c0r3: int,
    pub c1r0: int,
    pub c1r1: int,
    pub c1r2: int,
    pub c1r3: int,
    pub c2r0: int,
    pub c2r1: int,
    pub c2r2: int,
    pub c2r3: int,
    pub c3r0: int,
    pub c3r1: int,
    pub c3r2: int,
    pub c3r3: int,
}

impl View for Mat4 {
    type V = Mat4Spec;

    open spec fn view(&self) -> Mat4Spec {
        Mat4Spec {
            c0r0: self.c0r0 as int,
            c0r1: self.c0r1 as int,
            c0r2: self.c0r2 as int,
            c0r3: self.c0r3 as int,
            c1r0: self.c1r0 as int,
            c1r1: self.c1r1 as int,
            c1r2: self.c1r2 as int,
            c1r3: self.c1r3 as int,
            c2r0: self.c2r0 as int,
            c2r1: self.c2r1 as int,
            c2r2: self.c2r2 as int,
            c2r3: self.c2r3 as int,
            c3r0: self.c3r0 as int,
            c3r1: self.c3r1 as int,
            c3r2: self.c3r2 as int,
            c3r3: self.c3r3 as int,
        }
    }
}

/// Every entry of `m` has magnitude at most `l`.
pub open spec fn mat_bounded(m: Mat4Spec, l: int) -> bool {
    &&& -l <= m.c0r0 <= l
    &&& -l <= m.c0r1 <= l
    &&& -l <= m.c0r2 <= l
    &&& -l <= m.c0r3 <= l
    &&& -l <= m.c1r0 <= l
    &&& -l <= m.c1r1 <= l
    &&& -l <= m.c1r2 <= l
    &&& -l <= m.c1r3 <= l
    &&& -l <= m.c2r0 <= l
    &&& -l <= m.c2r1 <= l
    &&& -l <= m.c2r2 <= l
    &&& -l <= m.c2r3 <= l
    &&& -l <= m.c3r0 <= l
    &&& -l <= m.c3r1 <= l
    &&& -l <= m.c3r2 <= l
    &&& -l <= m.c3r3 <= l
}

/// The fixed-point matrix product: entry (row i, column j) is the dot
/// product of row i of `a` with column j of `b`, each partial product
/// truncated by `fxm`.
pub open spec fn mat_mul_spec(a: Mat4Spec, b: Mat4Spec) -> Mat4Spec {
    Mat4Spec {
        c0r0: fxm(a.c0r0, b.c0r0) + fxm(a.c1r0, b.c0r1) + fxm(a.c2r0, b.c0r2) + fxm(a.c3r0, b.c0r3),
        c0r1: fxm(a.c0r1, b.c0r0) + fxm(a.c1r1, b.c0r1) + fxm(a.c2r1, b.c0r2) + fxm(a.c3r1, b.c0r3),
        c0r2: fxm(a.c0r2, b.c0r0) + fxm(a.c1r2, b.c0r1) + fxm(a.c2r2, b.c0r2) + fxm(a.c3r2, b.c0r3),
        c0r3: fxm(a.c0r3, b.c0r0) + fxm(a.c1r3, b.c0r1) + fxm(a.c2r3, b.c0r2) + fxm(a.c3r3, b.c0r3),
        c1r0: fxm(a.c0r0, b.c1r0) + fxm(a.c1r0, b.c1r1) + fxm(a.c2r0, b.c1r2) + fxm(a.c3r0, b.c1r3),
        c1r1: fxm(a.c0r1, b.c1r0) + fxm(a.c1r1, b.c1r1) + fxm(a.c2r1, b.c1r2) + fxm(a.c3r1, b.c1r3),
        c1r2: fxm(a.c0r2, b.c1r0) + fxm(a.c1r2, b.c1r1) + fxm(a.c2r2, b.c1r2) + fxm(a.c3r2, b.c1r3),
        c1r3: fxm(a.c0r3, b.c1r0) + fxm(a.c1r3, b.c1r1) + fxm(a.c2r3, b.c1r2) + fxm(a.c3r3, b.c1r3),
        c2r0: fxm(a.c0r0, b.c2r0) + fxm(a.c1r0, b.c2r1) + fxm(a.c2r0, b.c2r2) + fxm(a.c3r0, b.c2r3),
        c2r1: fxm(a.c0r1, b.c2r0) + fxm(a.c1r1, b.c2r1) + fxm(a.c2r1, b.c2r2) + fxm(a.c3r1, b.c2r3),
        c2r2: fxm(a.c0r2, b.c2r0) + fxm(a.c1r2, b.c2r1) + fxm(a.c2r2, b.c2r2) + fxm(a.c3r2, b.c2r3),
        c2r3: fxm(a.c0r3, b.c2r0) + fxm(a.c1r3, b.c2r1) + fxm(a.c2r3, b.c2r2) + fxm(a.c3r3, b.c2r3),
        c3r0: fxm(a.c0r0, b.c3r0) + fxm(a.c1r0, b.c3r1) + fxm(a.c2r0, b.c3r2) + fxm(a.c3r0, b.c3r3),
        c3r1: fxm(a.c0r1, b.c3r0) + fxm(a.c1r1, b.c3r1) + fxm(a.c2r1, b.c3r2) + fxm(a.c3r1, b.c3r3),
        c3r2: fxm(a.c0r2, b.c3r0) + fxm(a.c1r2, b.c3r1) + fxm(a.c2r2, b.c3r2) + fxm(a.c3r2, b.c3r3),
        c3r3: fxm(a.c0r3, b.c3r0) + fxm(a.c1r3, b.c3r1) + fxm(a.c2r3, b.c3r2) + fxm(a.c3r3, b.c3r3),
    }
}

/// A magnitude bound on one dot product of the matrix product.
proof fn lemma_dot_bound(a0: int, b0: int, a1: int, b1: int, a2: int, b2: int,
    a3: int, b3: int, la: int, lb: int)
    requires
        0 <= la,
        0 <= lb,
        -la <= a0 <= la, -la <= a1 <= la, -la <= a2 <= la, -la <= a3 <= la,
        -lb <= b0 <= lb, -lb <= b1 <= lb, -lb <= b2 <= lb, -lb <= b3 <= lb,
    ensures
        -4 * ((la * lb) / (FX_ONE as int))
            <= fxm(a0, b0) + fxm(a1, b1) + fxm(a2, b2) + fxm(a3, b3)
            <= 4 * ((la * lb) / (FX_ONE as int)),
{
    lemma_fxm_bound(a0, b0, la, lb);
    lemma_fxm_bound(a1, b1, la, lb);
    lemma_fxm_bound(a2, b2, la, lb);
    lemma_fxm_bound(a3, b3, la, lb);
}

/// Entry bounds on the two factors carry over to the product, scaled by
/// the dot-product width.
pub proof fn lemma_mat_mul_bound(a: Mat4Spec, b: Mat4Spec, la: int, lb: int)
    requires
        0 <= la,
        0 <= lb,
        mat_bounded(a, la),
        mat_bounded(b, lb),
    ensures
        mat_bounded(mat_mul_spec(a, b), 4 * ((la * lb) / (FX_ONE as int))),
{
    lemma_dot_bound(a.c0r0, b.c0r0, a.c1r0, b.c0r1, a.c2r0, b.c0r2, a.c3r0, b.c0r3, la, lb);
    lemma_dot_bound(a.c0r1, b.c0r0, a.c1r1, b.c0r1, a.c2r1, b.c0r2, a.c3r1, b.c0r3, la, lb);
    lemma_dot_bound(a.c0r2, b.c0r0, a.c1r2, b.c0r1, a.c2r2, b.c0r2, a.c3r2, b.c0r3, la, lb);
    lemma_dot_bound(a.c0r3, b.c0r0, a.c1r3, b.c0r1, a.c2r3, b.c0r2, a.c3r3, b.c0r3, la, lb);
    lemma_dot_bound(a.c0r0, b.c1r0, a.c1r0, b.c1r1, a.c2r0, b.c1r2, a.c3r0, b.c1r3, la, lb);
    lemma_dot_bound(a.c0r1, b.c1r0, a.c1r1, b.c1r1, a.c2r1, b.c1r2, a.c3r1, b.c1r3, la, lb);
    lemma_dot_bound(a.c0r2, b.c1r0, a.c1r2, b.c1r1, a.c2r2, b.c1r2, a.c3r2, b.c1r3, la, lb);
    lemma_dot_bound(a.c0r3, b.c1r0, a.c1r3, b.c1r1, a.c2r3, b.c1r2, a.c3r3, b.c1r3, la, lb);
    lemma_dot_bound(a.c0r0, b.c2r0, a.c1r0, b.c2r1, a.c2r0, b.c2r2, a.c3r0, b.c2r3, la, lb);
    lemma_dot_bound(a.c0r1, b.c2r0, a.c1r1, b.c2r1, a.c2r1, b.c2r2, a.c3r1, b.c2r3, la, lb);
    lemma_dot_bound(a.c0r2, b.c2r0, a.c1r2, b.c2r1, a.c2r2, b.c2r2, a.c3r2, b.c2r3, la, lb);
    lemma_dot_bound(a.c0r3, b.c2r0, a.c1r3, b.c2r1, a.c2r3, b.c2r2, a.c3r3, b.c2r3, la, lb);
    lemma_dot_bound(a.c0r0, b.c3r0, a.c1r0, b.c3r1, a.c2r0, b.c3r2, a.c3r0, b.c3r3, la, lb);
    lemma_dot_bound(a.c0r1, b.c3r0, a.c1r1, b.c3r1, a.c2r1, b.c3r2, a.c3r1, b.c3r3, la, lb);
    lemma_dot_bound(a.c0r2, b.c3r0, a.c1r2, b.c3r1, a.c2r2, b.c3r2, a.c3r2, b.c3r3, la, lb);
    lemma_dot_bound(a.c0r3, b.c3r0, a.c1r3, b.c3r1, a.c2r3, b.c3r2, a.c3r3, b.c3r3, la, lb);
}

/// Builds a matrix from sixteen fixed-point entries given column by column,
/// the order in which the backend also consumes them.
pub fn mat4(
    c0r0: i64, c0r1: i64, c0r2: i64, c0r3: i64, c1r0: i64, c1r1: i64, c1r2: i64, c1r3: i64,
    c2r0: i64, c2r1: i64, c2r2: i64, c2r3: i64, c3r0: i64, c3r1: i64, c3r2: i64, c3r3: i64,
) -> (m: Mat4)
    ensures
        m.c0r0 == c0r0 && m.c0r1 == c0r1 && m.c0r2 == c0r2 && m.c0r3 == c0r3,
        m.c1r0 == c1r0 && m.c1r1 == c1r1 && m.c1r2 == c1r2 && m.c1r3 == c1r3,
        m.c2r0 == c2r0 && m.c2r1 == c2r1 && m.c2r2 == c2r2 && m.c2r3 == c2r3,
        m.c3r0 == c3r0 && m.c3r1 == c3r1 && m.c3r2 == c3r2 && m.c3r3 == c3r3,
{
    Mat4 {
        c0r0,
        c0r1,
        c0r2,
        c0r3,
        c1r0,
        c1r1,
        c1r2,
        c1r3,
        c2r0,
        c2r1,
        c2r2,
        c2r3,
        c3r0,
        c3r1,
        c3r2,
        c3r3,
    }
}

/// The fixed-point matrix product. The entry bounds are machine limits
/// keeping every dot product inside an `i64`.
pub fn mat_mul(a: &Mat4, b: &Mat4) -> (m: Mat4)
    requires
        mat_bounded(a@, MAT_LIMIT as int),
        mat_bounded(b@, MAT_LIMIT as int),
    ensures
        m@ == mat_mul_spec(a@, b@),
{
    proof {
        lemma_mat_mul_bound(a@, b@, MAT_LIMIT as int, MAT_LIMIT as int);
    }
    Mat4 {
        c0r0: fx_mul(a.c0r0, b.c0r0) + fx_mul(a.c1r0, b.c0r1) + fx_mul(a.c2r0, b.c0r2) + fx_mul(a.c3r0, b.c0r3),
        c0r1: fx_mul(a.c0r1, b.c0r0) + fx_mul(a.c1r1, b.c0r1) + fx_mul(a.c2r1, b.c0r2) + fx_mul(a.c3r1, b.c0r3),
        c0r2: fx_mul(a.c0r2, b.c0r0) + fx_mul(a.c1r2, b.c0r1) + fx_mul(a.c2r2, b.c0r2) + fx_mul(a.c3r2, b.c0r3),
        c0r3: fx_mul(a.c0r3, b.c0r0) + fx_mul(a.c1r3, b.c0r1) + fx_mul(a.c2r3, b.c0r2) + fx_mul(a.c3r3, b.c0r3),
        c1r0: fx_mul(a.c0r0, b.c1r0) + fx_mul(a.c1r0, b.c1r1) + fx_mul(a.c2r0, b.c1r2) + fx_mul(a.c3r0, b.c1r3),
        c1r1: fx_mul(a.c0r1, b.c1r0) + fx_mul(a.c1r1, b.c1r1) + fx_mul(a.c2r1, b.c1r2) + fx_mul(a.c3r1, b.c1r3),
        c1r2: fx_mul(a.c0r2, b.c1r0) + fx_mul(a.c1r2, b.c1r1) + fx_mul(a.c2r2, b.c1r2) + fx_mul(a.c3r2, b.c1r3),
        c1r3: fx_mul(a.c0r3, b.c1r0) + fx_mul(a.c1r3, b.c1r1) + fx_mul(a.c2r3, b.c1r2) + fx_mul(a.c3r3, b.c1r3),
        c2r0: fx_mul(a.c0r0, b.c2r0) + fx_mul(a.c1r0, b.c2r1) + fx_mul(a.c2r0, b.c2r2) + fx_mul(a.c3r0, b.c2r3),
        c2r1: fx_mul(a.c0r1, b.c2r0) + fx_mul(a.c1r1, b.c2r1) + fx_mul(a.c2r1, b.c2r2) + fx_mul(a.c3r1, b.c2r3),
        c2r2: fx_mul(a.c0r2, b.c2r0) + fx_mul(a.c1r2, b.c2r1) + fx_mul(a.c2r2, b.c2r2) + fx_mul(a.c3r2, b.c2r3),
        c2r3: fx_mul(a.c0r3, b.c2r0) + fx_mul(a.c1r3, b.c2r1) + fx_mul(a.c2r3, b.c2r2) + fx_mul(a.c3r3, b.c2r3),
        c3r0: fx_mul(a.c0r0, b.c3r0) + fx_mul(a.c1r0, b.c3r1) + fx_mul(a.c2r0, b.c3r2) + fx_mul(a.c3r0, b.c3r3),
        c3r1: fx_mul(a.c0r1, b.c3r0) + fx_mul(a.c1r1, b.c3r1) + fx_mul(a.c2r1, b.c3r2) + fx_mul(a.c3r1, b.c3r3),
        c3r2: fx_mul(a.c0r2, b.c3r0) + fx_mul(a.c1r2, b.c3r1) + fx_mul(a.c2r2, b.c3r2) + fx_mul(a.c3r2, b.c3r3),
        c3r3: fx_mul(a.c0r3, b.c3r0) + fx_mul(a.c1r3, b.c3r1) + fx_mul(a.c2r3, b.c3r2) + fx_mul(a.c3r3, b.c3r3),
    }
}



/// The right-handed rotation about the X axis, by an angle in
/// millionths of a radian.
pub open spec fn xrotation_spec(x: int) -> Mat4Spec {
    Mat4Spec {
        c0r0: FX_ONE as int,
        c0r1: 0,
        c0r2: 0,
        c0r3: 0,
        c1r0: 0,
        c1r1: cos_spec(x),
        c1r2: -sin_spec(x),
        c1r3: 0,
        c2r0: 0,
        c2r1: sin_spec(x),
        c2r2: cos_spec(x),
        c2r3: 0,
        c3r0: 0,
        c3r1: 0,
        c3r2: 0,
        c3r3: FX_ONE as int,
    }
}

/// The right-handed rotation about the Y axis.
pub open spec fn yrotation_spec(x: int) -> Mat4Spec {
    Mat4Spec {
        c0r0: cos_spec(x),
        c0r1: 0,
        c0r2: sin_spec(x),
        c0r3: 0,
        c1r0: 0,
        c1r1: FX_ONE as int,
        c1r2: 0,
        c1r3: 0,
        c2r0: -sin_spec(x),
        c2r1: 0,
        c2r2: cos_spec(x),
        c2r3: 0,
        c3r0: 0,
        c3r1: 0,
        c3r2: 0,
        c3r3: FX_ONE as int,
    }
}

/// The right-handed rotation about the Z axis.
pub open spec fn zrotation_spec(x: int) -> Mat4Spec {
    Mat4Spec {
        c0r0: cos_spec(x),
        c0r1: -sin_spec(x),
        c0r2: 0,
        c0r3: 0,
        c1r0: sin_spec(x),
        c1r1: cos_spec(x),
        c1r2: 0,
        c1r3: 0,
        c2r0: 0,
        c2r1: 0,
        c2r2: FX_ONE as int,
        c2r3: 0,
        c3r0: 0,
        c3r1: 0,
        c3r2: 0,
        c3r3: FX_ONE as int,
    }
}

/// The combined rotation: about X, then Y, then Z, in that composition
/// order, as the camera's look controls expect.
pub open spec fn rotation_spec(v: Vector) -> Mat4Spec {
    mat_mul_spec(
        mat_mul_spec(xrotation_spec(v.x as int), yrotation_spec(v.y as int)),
        zrotation_spec(v.z as int),
    )
}

/// Builds the rotation matrix about the X axis.
pub fn xrotation(rads: i64) -> (m: Mat4)
    ensures
        m@ == xrotation_spec(rads as int),
        mat_bounded(m@, FX_ONE as int),
{
    let s = sin_fix(rads);
    let c = cos_fix(rads);
    mat4(
        FX_ONE, 0, 0, 0,
        0, c, -s, 0,
        0, s, c, 0,
        0, 0, 0, FX_ONE,
    )
}

/// Builds the rotation matrix about the Y axis.
pub fn yrotation(rads: i64) -> (m: Mat4)
    ensures
        m@ == yrotation_spec(rads as int),
        mat_bounded(m@, FX_ONE as int),
{
    let s = sin_fix(rads);
    let c = cos_fix(rads);
    mat4(
        c, 0, s, 0,
        0, FX_ONE, 0, 0,
        -s, 0, c, 0,
        0, 0, 0, FX_ONE,
    )
}

/// Builds the rotation matrix about the Z axis.
pub fn zrotation(rads: i64) -> (m: Mat4)
    ensures
        m@ == zrotation_spec(rads as int),
        mat_bounded(m@, FX_ONE as int),
{
    let s = sin_fix(rads);
    let c = cos_fix(rads);
    mat4(
        c, -s, 0, 0,
        s, c, 0, 0,
        0, 0, FX_ONE, 0,
        0, 0, 0, FX_ONE,
    )
}

/// Builds the combined rotation matrix about X, then Y, then Z.
pub fn rotation(v: &Vector) -> (m: Mat4)
    ensures
        m@ == rotation_spec(*v),
        mat_bounded(m@, 16_000_000),
{
    let rx = xrotation(v.x);
    let ry = yrotation(v.y);
    let rz = zrotation(v.z);
    proof {
        lemma_mat_mul_bound(rx@, ry@, FX_ONE as int, FX_ONE as int);
    }
    let xy = mat_mul(&rx, &ry);
    proof {
        lemma_mat_mul_bound(xy@, rz@, 4_000_000, FX_ONE as int);
    }
    mat_mul(&xy, &rz)
}

/// A product of two unit-range scalars stays in unit range.
fn unit_mul(a: i64, b: i64) -> (r: i64)
    requires
        -FX_ONE <= a <= FX_ONE,
        -FX_ONE <= b <= FX_ONE,
    ensures
        r == fxm(a as int, b as int),
        -FX_ONE <= r <= FX_ONE,
{
    proof {
        lemma_fxm_bound(a as int, b as int, FX_ONE as int, FX_ONE as int);
    }
    fx_mul(a, b)
}

/// The single combined rotate-and-place matrix: the same rotation order as
/// `rotation_spec` with the position written into the last column, expanded
/// into products of sines and cosines.
pub open spec fn trasform_spec(pos: Vector, rot: Vector) -> Mat4Spec {
    let xs = sin_spec(rot.x as int);
    let xc = cos_spec(rot.x as int);
    let ys = sin_spec(rot.y as int);
    let yc = cos_spec(rot.y as int);
    let zs = sin_spec(rot.z as int);
    let zc = cos_spec(rot.z as int);
    Mat4Spec {
        c0r0: fxm(zc, yc),
        c0r1: fxm(fxm(zc, ys), xs) - fxm(zs, xc),
        c0r2: fxm(fxm(zc, ys), xc) + fxm(zs, xs),
        c0r3: 0,
        c1r0: fxm(zs, yc),
        c1r1: fxm(fxm(zs, ys), xs) + fxm(zc, xc),
        c1r2: fxm(fxm(zs, ys), xc) - fxm(zc, xs),
        c1r3: 0,
        c2r0: -ys,
        c2r1: fxm(yc, xs),
        c2r2: fxm(yc, xc),
        c2r3: 0,
        c3r0: pos.x as int,
        c3r1: pos.y as int,
        c3r2: pos.z as int,
        c3r3: FX_ONE as int,
    }
}

/// Builds the single combined rotate-and-place matrix.
pub fn trasform(pos: &Vector, rot: &Vector) -> (m: Mat4)
    ensures
        m@ == trasform_spec(*pos, *rot),
{
    let xs = sin_fix(rot.x);
    let xc = cos_fix(rot.x);
    let ys = sin_fix(rot.y);
    let yc = cos_fix(rot.y);
    let zs = sin_fix(rot.z);
    let zc = cos_fix(rot.z);
    mat4(
        unit_mul(zc, yc), unit_mul(unit_mul(zc, ys), xs) - unit_mul(zs, xc), unit_mul(unit_mul(zc, ys), xc) + unit_mul(zs, xs), 0,
        unit_mul(zs, yc), unit_mul(unit_mul(zs, ys), xs) + unit_mul(zc, xc), unit_mul(unit_mul(zs, ys), xc) - unit_mul(zc, xs), 0,
        -ys, unit_mul(yc, xs), unit_mul(yc, xc), 0,
        pos.x, pos.y, pos.z, FX_ONE,
    )
}

/// The sixteen entries in flattened, column-major order.
pub open spec fn mat_flat_spec(m: Mat4) -> Seq<i64> {
    seq![m.c0r0, m.c0r1, m.c0r2, m.c0r3, m.c1r0, m.c1r1, m.c1r2, m.c1r3, m.c2r0, m.c2r1, m.c2r2, m.c2r3, m.c3r0, m.c3r1, m.c3r2, m.c3r3]
}

/// The matrix a flattened, column-major sequence of entries stands for.
pub open spec fn mat_unflatten_spec(s: Seq<i64>) -> Mat4 {
    Mat4 {

        c0r0: s[0],

        c0r1: s[1],

        c0r2: s[2],

        c0r3: s[3],

        c1r0: s[4],

        c1r1: s[5],

        c1r2: s[6],

        c1r3: s[7],

        c2r0: s[8],

        c2r1: s[9],

        c2r2: s[10],

        c2r3: s[11],

        c3r0: s[12],

        c3r1: s[13],

        c3r2: s[14],

        c3r3: s[15],

    }
}

/// Flattens a matrix into the sixteen-value, column-major form the
/// graphics backend consumes.
pub fn matrix4_to_array(mat: &Mat4) -> (r: Vec<i64>)
    ensures
        r@ == mat_flat_spec(*mat),
{
    let mut v: Vec<i64> = Vec::new();

    v.push(mat.c0r0);

    v.push(mat.c0r1);

    v.push(mat.c0r2);

    v.push(mat.c0r3);

    v.push(mat.c1r0);

    v.push(mat.c1r1);

    v.push(mat.c1r2);

    v.push(mat.c1r3);

    v.push(mat.c2r0);

    v.push(mat.c2r1);

    v.push(mat.c2r2);

    v.push(mat.c2r3);

    v.push(mat.c3r0);

    v.push(mat.c3r1);

    v.push(mat.c3r2);

    v.push(mat.c3r3);

    proof {
        assert(v@ =~= mat_flat_spec(*mat));
    }
    v
}

/// Rebuilds a matrix from its flattened, column-major form.
pub fn matrix4_from_array(a: &Vec<i64>) -> (m: Mat4)
    requires
        a@.len() == 16,
    ensures
        m == mat_unflatten_spec(a@),
{
    Mat4 {

        c0r0: a[0],

        c0r1: a[1],

        c0r2: a[2],

        c0r3: a[3],

        c1r0: a[4],

        c1r1: a[5],

        c1r2: a[6],

        c1r3: a[7],

        c2r0: a[8],

        c2r1: a[9],

        c2r2: a[10],

        c2r3: a[11],

        c3r0: a[12],

        c3r1: a[13],

        c3r2: a[14],

        c3r3: a[15],

    }
}

/// Round trip: flattening the matrix a sequence stands for gives back that
/// sequence.
pub proof fn lemma_flatten_unflatten(s: Seq<i64>)
    requires
        s.len() == 16,
    ensures
        mat_flat_spec(mat_unflatten_spec(s)) == s,
{
    assert(mat_flat_spec(mat_unflatten_spec(s)) =~= s);
}

/// Round trip the other way: a matrix is rebuilt intact from its
/// flattened form.
pub proof fn lemma_unflatten_flatten(m: Mat4)
    ensures
        mat_unflatten_spec(mat_flat_spec(m)) == m,
{
}

/// Converts an angle in millionths of a degree to millionths of a radian:
/// `deg * pi / 180`, truncated.
pub open spec fn deg_to_rad_spec(d: int) -> int {
    fxd(fxm(d, FX_PI as int), 180_000_000)
}

/// Converts an angle in millionths of a degree to millionths of a radian.
/// The bound on the argument is a machine limit.
pub fn deg_to_rad(deg: i64) -> (r: i64)
    requires
        -2_000_000_000_000 <= deg <= 2_000_000_000_000,
    ensures
        r == deg_to_rad_spec(deg as int),
{
    proof {
        lemma_fxm_bound(deg as int, FX_PI as int, 2_000_000_000_000, FX_PI as int);
    }
    let t = fx_mul(deg, FX_PI);
    proof {
        crate::fixed::lemma_fxd_bound(t as int, 180_000_000);
    }
    fx_div(t, 180_000_000)
}

} // verus!
