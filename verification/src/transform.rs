//! Position, rotation and non-uniform scale composed into a model
//! matrix.

use vstd::prelude::*;

verus! {

use crate::fixed::FX_SCALE;
use crate::fixed::Fx;
use crate::matrix4::Matrix4;
use crate::quat::Quat;
use crate::quat::QuatS;
use crate::quat::q_identity;
use crate::quat::q_rotate;
use crate::vector3::Vec3S;
use crate::vector3::Vector3;
use crate::vector3::v3_add;
use crate::vector3::v3_mul;

/// Mathematical image of a `Transform`.
pub struct TransformS {
    pub position: Vec3S,
    pub rotation: QuatS,
    pub scale: Vec3S,
}

/// A point carried through scale, then rotation, then translation.
pub open spec fn t_point(t: TransformS, p: Vec3S) -> Vec3S {
    v3_add(t.position, q_rotate(t.rotation, v3_mul(t.scale, p)))
}

/// A direction carried through scale, then rotation.
pub open spec fn t_vector(t: TransformS, v: Vec3S) -> Vec3S {
    q_rotate(t.rotation, v3_mul(t.scale, v))
}

/// The model matrix: the three basis axes scaled and then rotated,
/// as the first three rows, translation in the last row — the same
/// scale-then-rotate order that carries points and directions.
pub open spec fn t_to_m4(t: TransformS) -> Seq<int> {
    let x = q_rotate(t.rotation, v3_mul(t.scale, Vec3S { x: FX_SCALE as int, y: 0, z: 0 }));
    let y = q_rotate(t.rotation, v3_mul(t.scale, Vec3S { x: 0, y: FX_SCALE as int, z: 0 }));
    let z = q_rotate(t.rotation, v3_mul(t.scale, Vec3S { x: 0, y: 0, z: FX_SCALE as int }));
    seq![
        x.x, x.y, x.z, 0,
        y.x, y.y, y.z, 0,
        z.x, z.y, z.z, 0,
        t.position.x, t.position.y, t.position.z, FX_SCALE as int,
    ]
}

/// Position, rotation and non-uniform scale of one mesh.
#[derive(Clone, Copy, PartialEq, Eq, Structural, Debug)]
pub struct Transform {
    pub position: Vector3,
    pub rotation: Quat,
    pub scale: Vector3,
}

impl View for Transform {
    type V = TransformS;

    open spec fn view(&self) -> TransformS {
        TransformS { position: self.position@, rotation: self.rotation@, scale: self.scale@ }
    }
}

impl Transform {
    /// Build a transform from its parts.
    pub fn new(position: Vector3, rotation: Quat, scale: Vector3) -> (r: Transform)
        ensures
            r@ == (TransformS { position: position@, rotation: rotation@, scale: scale@ }),
    {
        Transform { position, rotation, scale }
    }

    /// The identity transform: no translation, no rotation, unit
    /// scale.
    pub fn identity() -> (r: Transform)
        ensures
            r@.position == (Vec3S { x: 0, y: 0, z: 0 }),
            r@.rotation == q_identity(),
            r@.scale == (Vec3S {
                x: FX_SCALE as int,
                y: FX_SCALE as int,
                z: FX_SCALE as int,
            }),
    {
        Transform {
            position: Vector3::new(Fx::zero(), Fx::zero(), Fx::zero()),
            rotation: Quat::identity(),
            scale: Vector3::new(Fx::one(), Fx::one(), Fx::one()),
        }
    }

    /// Carry a point through scale, rotation and translation.
    pub fn transform_point(&self, point: Vector3) -> (r: Vector3)
        ensures
            r@ == t_point(self@, point@),
    {
        self.position.add(self.rotation.rotate_vector(self.scale.mul(point)))
    }

    /// Carry a direction through scale and rotation.
    pub fn transform_vector(&self, vector: Vector3) -> (r: Vector3)
        ensures
            r@ == t_vector(self@, vector@),
    {
        self.rotation.rotate_vector(self.scale.mul(vector))
    }

    /// The model matrix.
    pub fn to_mat4(&self) -> (r: Matrix4)
        ensures
            r@ =~= t_to_m4(self@),
    {
        let x = self.rotation.rotate_vector(
            self.scale.mul(Vector3::new(Fx::one(), Fx::zero(), Fx::zero())),
        );
        let y = self.rotation.rotate_vector(
            self.scale.mul(Vector3::new(Fx::zero(), Fx::one(), Fx::zero())),
        );
        let z = self.rotation.rotate_vector(
            self.scale.mul(Vector3::new(Fx::zero(), Fx::zero(), Fx::one())),
        );
        let p = self.position;
        let o = Fx::zero();
        Matrix4::from_array(
            [x.x, x.y, x.z, o, y.x, y.y, y.z, o, z.x, z.y, z.z, o, p.x, p.y, p.z, Fx::one()],
        )
    }
}

} // verus!
