//! Eye placement and projection parameters, and the matrices they
//! derive.

use vstd::prelude::*;

verus! {

use crate::fixed::Fx;
use crate::matrix4::Matrix4;
use crate::matrix4::m4_look_at;
use crate::matrix4::m4_perspective;
use crate::vector3::Vector3;

/// A camera: eye, target and up directions, plus the symmetric
/// frustum parameters. The field of view is held as the tangent of
/// half the vertical angle, since the library's scalars carry no
/// trigonometric functions of their own.
#[derive(Clone, Copy, PartialEq, Eq, Structural, Debug)]
pub struct Camera {
    pub position: Vector3,
    pub target: Vector3,
    pub up: Vector3,
    pub tan_half_fov: Fx,
    pub aspect_ratio: Fx,
    pub near: Fx,
    pub far: Fx,
}

impl Camera {
    /// Build a camera from its parts.
    pub fn new(
        position: Vector3,
        target: Vector3,
        up: Vector3,
        tan_half_fov: Fx,
        aspect_ratio: Fx,
        near: Fx,
        far: Fx,
    ) -> (r: Camera)
        ensures
            r.position == position,
            r.target == target,
            r.up == up,
            r.tan_half_fov == tan_half_fov,
            r.aspect_ratio == aspect_ratio,
            r.near == near,
            r.far == far,
    {
        Camera { position, target, up, tan_half_fov, aspect_ratio, near, far }
    }

    /// The look-at view matrix toward the target.
    pub fn get_view_matrix(&self) -> (r: Matrix4)
        ensures
            r@ =~= m4_look_at(self.position@, self.target@, self.up@),
    {
        Matrix4::look_at(&self.position, &self.target, &self.up)
    }

    /// The perspective projection matrix of the camera's frustum.
    pub fn get_projection_matrix(&self) -> (r: Matrix4)
        ensures
            r@ =~= m4_perspective(self.tan_half_fov@, self.aspect_ratio@, self.near@, self.far@),
    {
        Matrix4::perspective(self.tan_half_fov, self.aspect_ratio, self.near, self.far)
    }
}

} // verus!
