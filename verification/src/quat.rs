//! Unit-quaternion rotations. Operations that consume a quaternion
//! normalize defensively: a near-zero norm collapses to the identity
//! rather than propagating an undefined quotient.

use vstd::prelude::*;

verus! {

use crate::fixed::FX_SCALE;
use crate::fixed::Fx;
use crate::fixed::fabs;
use crate::fixed::fadd;
use crate::fixed::fdiv;
use crate::fixed::fmul;
use crate::fixed::fneg;
use crate::fixed::fsqrt;
use crate::fixed::fsub;
use crate::fixed::lemma_fmul_square_nonneg;
use crate::math::EPSILON_BITS;
use crate::matrix4::Matrix4;
use crate::vector3::Vec3S;
use crate::vector3::Vector3;
use crate::vector3::v3_add;
use crate::vector3::v3_cross;
use crate::vector3::v3_dot;
use crate::vector3::v3_normalize;
use crate::vector3::v3_scale;

broadcast use crate::fixed::lemma_fx_view_injective;

/// Mathematical image of a `Quat`: its components as bit counts.
pub struct QuatS {
    pub x: int,
    pub y: int,
    pub z: int,
    pub w: int,
}

/// The identity rotation.
pub open spec fn q_identity() -> QuatS {
    QuatS { x: 0, y: 0, z: 0, w: FX_SCALE as int }
}

/// The rotation by the angle whose half-angle sine and cosine are
/// `s` and `c`, around the direction of `axis`.
pub open spec fn q_angle_axis(s: int, c: int, axis: Vec3S) -> QuatS {
    let a = v3_normalize(axis);
    QuatS { x: fmul(a.x, s), y: fmul(a.y, s), z: fmul(a.z, s), w: c }
}

/// Squared norm.
pub open spec fn q_length_squared(q: QuatS) -> int {
    fadd(fadd(fadd(fmul(q.x, q.x), fmul(q.y, q.y)), fmul(q.z, q.z)), fmul(q.w, q.w))
}

/// Defensive normalization: a norm below the tolerance collapses to
/// the identity.
pub open spec fn q_normalize(q: QuatS) -> QuatS {
    let ls = q_length_squared(q);
    if ls < EPSILON_BITS {
        q_identity()
    } else {
        let il = fdiv(FX_SCALE as int, fsqrt(ls));
        QuatS { x: fmul(q.x, il), y: fmul(q.y, il), z: fmul(q.z, il), w: fmul(q.w, il) }
    }
}

/// Composition: the Hamilton product `a` times `b`, applied
/// right-to-left — the product first rotates by `b`, then by `a`.
pub open spec fn q_mul(a: QuatS, b: QuatS) -> QuatS {
    QuatS {
        x: fsub(fadd(fadd(fmul(a.w, b.x), fmul(a.x, b.w)), fmul(a.y, b.z)), fmul(a.z, b.y)),
        y: fadd(fadd(fsub(fmul(a.w, b.y), fmul(a.x, b.z)), fmul(a.y, b.w)), fmul(a.z, b.x)),
        z: fadd(fsub(fadd(fmul(a.w, b.z), fmul(a.x, b.y)), fmul(a.y, b.x)), fmul(a.z, b.w)),
        w: fsub(fsub(fsub(fmul(a.w, b.w), fmul(a.x, b.x)), fmul(a.y, b.y)), fmul(a.z, b.z)),
    }
}

/// Rotating a vector: the sandwich product expanded algebraically.
pub open spec fn q_rotate(q: QuatS, v: Vec3S) -> Vec3S {
    let vec = Vec3S { x: q.x, y: q.y, z: q.z };
    let t1 = v3_scale(v3_scale(vec, 2 * FX_SCALE as int), v3_dot(vec, v));
    let t2 = v3_scale(v, fsub(fmul(q.w, q.w), v3_dot(vec, vec)));
    let t3 = v3_scale(v3_scale(v3_cross(vec, v), 2 * FX_SCALE as int), q.w);
    v3_add(v3_add(t1, t2), t3)
}

/// The shortest-arc rotation taking the direction of `from` to the
/// direction of `to`, with an arbitrary orthogonal axis when the two
/// directions are exactly opposite.
pub open spec fn q_from_to(from: Vec3S, to: Vec3S) -> QuatS {
    let f = v3_normalize(from);
    let t = v3_normalize(to);
    if f == t {
        q_identity()
    } else if f == v3_scale(t, -(FX_SCALE as int)) {
        let ortho = if fabs(f.z) < fabs(f.y) && fabs(f.z) < fabs(f.x) {
            Vec3S { x: 0, y: 0, z: FX_SCALE as int }
        } else if fabs(f.y) < fabs(f.x) {
            Vec3S { x: 0, y: FX_SCALE as int, z: 0 }
        } else {
            Vec3S { x: FX_SCALE as int, y: 0, z: 0 }
        };
        let axis = v3_normalize(v3_cross(f, ortho));
        QuatS { x: axis.x, y: axis.y, z: axis.z, w: 0 }
    } else {
        let half = v3_normalize(v3_add(f, t));
        let axis = v3_cross(f, half);
        QuatS { x: axis.x, y: axis.y, z: axis.z, w: v3_dot(f, half) }
    }
}

/// The rotation that points the unit forward axis along `dir`,
/// then rights the rotated up axis.
pub open spec fn q_look_dir(dir: Vec3S, up: Vec3S) -> QuatS {
    let d = v3_normalize(dir);
    let u0 = v3_normalize(up);
    let right = v3_normalize(v3_cross(d, u0));
    let u = v3_cross(d, right);
    let forward = Vec3S { x: 0, y: 0, z: FX_SCALE as int };
    let f2d = q_from_to(forward, d);
    let object_up = q_rotate(f2d, Vec3S { x: 0, y: FX_SCALE as int, z: 0 });
    let u2u = q_from_to(object_up, u);
    q_normalize(q_mul(u2u, f2d))
}

/// The rotation as a 4x4 matrix whose first three rows are the
/// rotated basis axes.
pub open spec fn q_to_m4(q: QuatS) -> Seq<int> {
    let r = q_rotate(q, Vec3S { x: FX_SCALE as int, y: 0, z: 0 });
    let u = q_rotate(q, Vec3S { x: 0, y: FX_SCALE as int, z: 0 });
    let f = q_rotate(q, Vec3S { x: 0, y: 0, z: FX_SCALE as int });
    seq![
        r.x, r.y, r.z, 0,
        u.x, u.y, u.z, 0,
        f.x, f.y, f.z, 0,
        0, 0, 0, FX_SCALE as int,
    ]
}

/// A rotation quaternion of fixed-point scalars.
#[derive(Clone, Copy, PartialEq, Eq, Structural, Debug)]
pub struct Quat {
    pub x: Fx,
    pub y: Fx,
    pub z: Fx,
    pub w: Fx,
}

impl View for Quat {
    type V = QuatS;

    open spec fn view(&self) -> QuatS {
        QuatS { x: self.x@, y: self.y@, z: self.z@, w: self.w@ }
    }
}

impl Quat {
    /// Build a quaternion from its components.
    pub fn new(x: Fx, y: Fx, z: Fx, w: Fx) -> (r: Quat)
        ensures
            r@ == (QuatS { x: x@, y: y@, z: z@, w: w@ }),
    {
        Quat { x, y, z, w }
    }

    /// The identity rotation.
    pub fn identity() -> (r: Quat)
        ensures
            r@ == q_identity(),
    {
        Quat { x: Fx::zero(), y: Fx::zero(), z: Fx::zero(), w: Fx::one() }
    }

    /// The rotation around `axis`. The caller supplies the sine and
    /// cosine of half the angle, since the library's scalars carry no
    /// trigonometric functions of their own.
    pub fn angle_axis(half_sin: Fx, half_cos: Fx, axis: &Vector3) -> (r: Quat)
        ensures
            r@ == q_angle_axis(half_sin@, half_cos@, axis@),
    {
        let a = axis.normalize();
        Quat { x: a.x.mul(half_sin), y: a.y.mul(half_sin), z: a.z.mul(half_sin), w: half_cos }
    }

    /// The shortest-arc rotation between two directions.
    pub fn from_to(from: &Vector3, to: &Vector3) -> (r: Quat)
        ensures
            r@ == q_from_to(from@, to@),
    {
        let f = from.normalize();
        let t = to.normalize();
        if f == t {
            return Quat::identity();
        } else if f == t.scale(Fx::from_int(-1)) {
            let mut ortho = Vector3::new(Fx::one(), Fx::zero(), Fx::zero());
            if f.y.abs().lt(f.x.abs()) {
                ortho = Vector3::new(Fx::zero(), Fx::one(), Fx::zero());
            }
            if f.z.abs().lt(f.y.abs()) && f.z.abs().lt(f.x.abs()) {
                ortho = Vector3::new(Fx::zero(), Fx::zero(), Fx::one());
            }
            let axis = f.cross(&ortho).normalize();
            return Quat::new(axis.x, axis.y, axis.z, Fx::zero());
        }
        let half = f.add(t).normalize();
        let axis = f.cross(&half);
        Quat::new(axis.x, axis.y, axis.z, f.dot(&half))
    }

    /// The rotation that points the forward axis along `dir`.
    pub fn look_dir(dir: &Vector3, up: &Vector3) -> (r: Quat)
        ensures
            r@ == q_look_dir(dir@, up@),
    {
        let d = dir.normalize();
        let u0 = up.normalize();
        let right = d.cross(&u0).normalize();
        let u = d.cross(&right);
        let from = Vector3::new(Fx::zero(), Fx::zero(), Fx::one());
        let f2d = Quat::from_to(&from, &d);
        let object_up = f2d.rotate_vector(Vector3::new(Fx::zero(), Fx::one(), Fx::zero()));
        let u2u = Quat::from_to(&object_up, &u);
        let result = u2u.mul(f2d);
        result.normalize()
    }

    /// Defensive normalization: a norm below the tolerance collapses
    /// to the identity.
    pub fn normalize(&self) -> (r: Quat)
        ensures
            r@ == q_normalize(self@),
    {
        let len_sq = self.length_squared();
        if len_sq.lt(Fx::from_bits(EPSILON_BITS)) {
            return Quat::identity();
        }
        let i_len = Fx::one().div(len_sq.sqrt());
        Quat {
            x: self.x.mul(i_len),
            y: self.y.mul(i_len),
            z: self.z.mul(i_len),
            w: self.w.mul(i_len),
        }
    }

    /// Squared norm; never negative.
    pub fn length_squared(&self) -> (r: Fx)
        ensures
            r@ == q_length_squared(self@),
            r@ >= 0,
    {
        proof {
            lemma_fmul_square_nonneg(self.x@);
            lemma_fmul_square_nonneg(self.y@);
            lemma_fmul_square_nonneg(self.z@);
            lemma_fmul_square_nonneg(self.w@);
        }
        self.x.mul(self.x).add(self.y.mul(self.y)).add(self.z.mul(self.z)).add(self.w.mul(self.w))
    }

    /// The rotation axis as a direction.
    pub fn get_axis(&self) -> (r: Vector3)
        ensures
            r@ == v3_normalize(Vec3S { x: self@.x, y: self@.y, z: self@.z }),
    {
        Vector3::new(self.x, self.y, self.z).normalize()
    }

    /// The rotation as a 4x4 matrix whose first three rows are the
    /// rotated basis axes.
    pub fn to_mat4(&self) -> (ret: Matrix4)
        ensures
            ret@ =~= q_to_m4(self@),
    {
        let r = self.rotate_vector(Vector3::new(Fx::one(), Fx::zero(), Fx::zero()));
        let u = self.rotate_vector(Vector3::new(Fx::zero(), Fx::one(), Fx::zero()));
        let f = self.rotate_vector(Vector3::new(Fx::zero(), Fx::zero(), Fx::one()));
        let o = Fx::zero();
        Matrix4::from_array(
            [r.x, r.y, r.z, o, u.x, u.y, u.z, o, f.x, f.y, f.z, o, o, o, o, Fx::one()],
        )
    }

    /// Componentwise sum.
    pub fn add(self, other: Quat) -> (r: Quat)
        ensures
            r@ == (QuatS {
                x: fadd(self@.x, other@.x),
                y: fadd(self@.y, other@.y),
                z: fadd(self@.z, other@.z),
                w: fadd(self@.w, other@.w),
            }),
    {
        Quat {
            x: self.x.add(other.x),
            y: self.y.add(other.y),
            z: self.z.add(other.z),
            w: self.w.add(other.w),
        }
    }

    /// Componentwise difference.
    pub fn sub(self, other: Quat) -> (r: Quat)
        ensures
            r@ == (QuatS {
                x: fsub(self@.x, other@.x),
                y: fsub(self@.y, other@.y),
                z: fsub(self@.z, other@.z),
                w: fsub(self@.w, other@.w),
            }),
    {
        Quat {
            x: self.x.sub(other.x),
            y: self.y.sub(other.y),
            z: self.z.sub(other.z),
            w: self.w.sub(other.w),
        }
    }

    /// Composition: the Hamilton product, applied right-to-left —
    /// the product first rotates by `other`, then by `self`.
    pub fn mul(self, other: Quat) -> (r: Quat)
        ensures
            r@ == q_mul(self@, other@),
    {
        Quat {
            x: self.w.mul(other.x).add(self.x.mul(other.w)).add(self.y.mul(other.z)).sub(
                self.z.mul(other.y),
            ),
            y: self.w.mul(other.y).sub(self.x.mul(other.z)).add(self.y.mul(other.w)).add(
                self.z.mul(other.x),
            ),
            z: self.w.mul(other.z).add(self.x.mul(other.y)).sub(self.y.mul(other.x)).add(
                self.z.mul(other.w),
            ),
            w: self.w.mul(other.w).sub(self.x.mul(other.x)).sub(self.y.mul(other.y)).sub(
                self.z.mul(other.z),
            ),
        }
    }

    /// Product with a scalar.
    pub fn scale(self, other: Fx) -> (r: Quat)
        ensures
            r@ == (QuatS {
                x: fmul(self@.x, other@),
                y: fmul(self@.y, other@),
                z: fmul(self@.z, other@),
                w: fmul(self@.w, other@),
            }),
    {
        Quat {
            x: self.x.mul(other),
            y: self.y.mul(other),
            z: self.z.mul(other),
            w: self.w.mul(other),
        }
    }

    /// Componentwise negation.
    pub fn neg(self) -> (r: Quat)
        ensures
            r@ == (QuatS {
                x: fneg(self@.x),
                y: fneg(self@.y),
                z: fneg(self@.z),
                w: fneg(self@.w),
            }),
    {
        Quat { x: self.x.neg(), y: self.y.neg(), z: self.z.neg(), w: self.w.neg() }
    }

    /// Rotating a vector: the sandwich product expanded
    /// algebraically.
    pub fn rotate_vector(self, other: Vector3) -> (r: Vector3)
        ensures
            r@ == q_rotate(self@, other@),
    {
        let vec = Vector3::new(self.x, self.y, self.z);
        let two = Fx::from_int(2);
        let t1 = vec.scale(two).scale(vec.dot(&other));
        let t2 = other.scale(self.w.mul(self.w).sub(vec.dot(&vec)));
        let t3 = vec.cross(&other).scale(two).scale(self.w);
        t1.add(t2).add(t3)
    }
}

} // verus!
