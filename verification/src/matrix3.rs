//! 3x3 matrices, used for the normal transform.

use vstd::prelude::*;

verus! {

use crate::fixed::FX_SCALE;
use crate::fixed::Fx;
use crate::matrix4::Matrix4;
use crate::vector3::Vec3S;
use crate::vector3::Vector3;
use crate::vector3::v3_dot;

/// Row `i` of a 3x3 matrix held as nine bit counts.
pub open spec fn m3_row(m: Seq<int>, i: int) -> Vec3S {
    Vec3S { x: m[i * 3], y: m[i * 3 + 1], z: m[i * 3 + 2] }
}

/// The nine entries of the identity.
pub open spec fn m3_identity() -> Seq<int> {
    seq![
        FX_SCALE as int, 0, 0,
        0, FX_SCALE as int, 0,
        0, 0, FX_SCALE as int,
    ]
}

/// Matrix-vector product over rows.
pub open spec fn m3_mul_vec(m: Seq<int>, v: Vec3S) -> Vec3S {
    Vec3S { x: v3_dot(m3_row(m, 0), v), y: v3_dot(m3_row(m, 1), v), z: v3_dot(m3_row(m, 2), v) }
}

/// The upper-left 3x3 block of a 4x4 matrix held column-major.
pub open spec fn m3_from_m4(m: Seq<int>) -> Seq<int> {
    seq![m[0], m[1], m[2], m[4], m[5], m[6], m[8], m[9], m[10]]
}

/// A 3x3 matrix of fixed-point scalars, stored as a flat array of
/// nine entries.
#[derive(Clone, Copy, Debug)]
pub struct Matrix3 {
    pub m: [Fx; 9],
}

impl View for Matrix3 {
    type V = Seq<int>;

    open spec fn view(&self) -> Seq<int> {
        Seq::new(9, |i: int| self.m@[i]@)
    }
}

impl Matrix3 {
    /// The zero matrix.
    pub fn new() -> (r: Matrix3)
        ensures
            r@ =~= Seq::new(9, |i: int| 0int),
    {
        Matrix3 { m: [Fx::zero(); 9] }
    }

    /// The identity matrix.
    pub fn identity() -> (r: Matrix3)
        ensures
            r@ =~= m3_identity(),
    {
        let one = Fx::one();
        let zero = Fx::zero();
        Matrix3 { m: [one, zero, zero, zero, one, zero, zero, zero, one] }
    }

    /// The upper-left 3x3 block of a 4x4 matrix.
    pub fn from_mat4(mat: Matrix4) -> (r: Matrix3)
        ensures
            r@ =~= m3_from_m4(mat@),
    {
        Matrix3 {
            m: [
                mat.m[0],
                mat.m[1],
                mat.m[2],
                mat.m[4],
                mat.m[5],
                mat.m[6],
                mat.m[8],
                mat.m[9],
                mat.m[10],
            ],
        }
    }

    /// Row `i`.
    pub fn row(&self, i: usize) -> (r: Vector3)
        requires
            i < 3,
        ensures
            r@ == m3_row(self@, i as int),
    {
        Vector3 { x: self.m[i * 3], y: self.m[i * 3 + 1], z: self.m[i * 3 + 2] }
    }

    /// Matrix-vector product.
    pub fn mul_vec3(&self, other: Vector3) -> (r: Vector3)
        ensures
            r@ == m3_mul_vec(self@, other@),
    {
        Vector3 {
            x: self.row(0).dot(&other),
            y: self.row(1).dot(&other),
            z: self.row(2).dot(&other),
        }
    }
}

} // verus!
