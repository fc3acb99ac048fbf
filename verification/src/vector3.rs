//! Three-component vectors: positions, normals, colors.

use vstd::prelude::*;

verus! {

use crate::fixed::FX_SCALE;
use crate::fixed::Fx;
use crate::fixed::fadd;
use crate::fixed::fdiv;
use crate::fixed::fmul;
use crate::fixed::fneg;
use crate::fixed::fsqrt;
use crate::fixed::fsub;
use crate::fixed::lemma_fmul_square_nonneg;

/// Mathematical image of a `Vector3`: its components as bit counts.
pub struct Vec3S {
    pub x: int,
    pub y: int,
    pub z: int,
}

/// Componentwise sum.
pub open spec fn v3_add(a: Vec3S, b: Vec3S) -> Vec3S {
    Vec3S { x: fadd(a.x, b.x), y: fadd(a.y, b.y), z: fadd(a.z, b.z) }
}

/// Componentwise difference.
pub open spec fn v3_sub(a: Vec3S, b: Vec3S) -> Vec3S {
    Vec3S { x: fsub(a.x, b.x), y: fsub(a.y, b.y), z: fsub(a.z, b.z) }
}

/// Componentwise negation.
pub open spec fn v3_neg(a: Vec3S) -> Vec3S {
    Vec3S { x: fneg(a.x), y: fneg(a.y), z: fneg(a.z) }
}

/// Componentwise product.
pub open spec fn v3_mul(a: Vec3S, b: Vec3S) -> Vec3S {
    Vec3S { x: fmul(a.x, b.x), y: fmul(a.y, b.y), z: fmul(a.z, b.z) }
}

/// Product with a scalar.
pub open spec fn v3_scale(a: Vec3S, s: int) -> Vec3S {
    Vec3S { x: fmul(a.x, s), y: fmul(a.y, s), z: fmul(a.z, s) }
}

/// Dot product.
pub open spec fn v3_dot(a: Vec3S, b: Vec3S) -> int {
    fadd(fadd(fmul(a.x, b.x), fmul(a.y, b.y)), fmul(a.z, b.z))
}

/// Cross product.
pub open spec fn v3_cross(a: Vec3S, b: Vec3S) -> Vec3S {
    Vec3S {
        x: fsub(fmul(a.y, b.z), fmul(a.z, b.y)),
        y: fsub(fmul(a.z, b.x), fmul(a.x, b.z)),
        z: fsub(fmul(a.x, b.y), fmul(a.y, b.x)),
    }
}

/// Squared Euclidean length.
pub open spec fn v3_length_squared(a: Vec3S) -> int {
    v3_dot(a, a)
}

/// Direction of a vector; the zero vector maps to itself rather than
/// to an undefined quotient.
pub open spec fn v3_normalize(a: Vec3S) -> Vec3S {
    let len = fsqrt(v3_length_squared(a));
    if len == 0 {
        Vec3S { x: 0, y: 0, z: 0 }
    } else {
        v3_scale(a, fdiv(FX_SCALE as int, len))
    }
}

/// A three-component vector of fixed-point scalars.
#[derive(Clone, Copy, PartialEq, Eq, Structural, Debug)]
pub struct Vector3 {
    pub x: Fx,
    pub y: Fx,
    pub z: Fx,
}

impl View for Vector3 {
    type V = Vec3S;

    open spec fn view(&self) -> Vec3S {
        Vec3S { x: self.x@, y: self.y@, z: self.z@ }
    }
}

impl Vector3 {
    /// Build a vector from its components.
    pub fn new(x: Fx, y: Fx, z: Fx) -> (r: Vector3)
        ensures
            r@ == (Vec3S { x: x@, y: y@, z: z@ }),
    {
        Vector3 { x, y, z }
    }

    /// Componentwise sum.
    pub fn add(self, rhs: Vector3) -> (r: Vector3)
        ensures
            r@ == v3_add(self@, rhs@),
    {
        Vector3 { x: self.x.add(rhs.x), y: self.y.add(rhs.y), z: self.z.add(rhs.z) }
    }

    /// Componentwise difference.
    pub fn sub(self, rhs: Vector3) -> (r: Vector3)
        ensures
            r@ == v3_sub(self@, rhs@),
    {
        Vector3 { x: self.x.sub(rhs.x), y: self.y.sub(rhs.y), z: self.z.sub(rhs.z) }
    }

    /// Componentwise negation.
    pub fn neg(self) -> (r: Vector3)
        ensures
            r@ == v3_neg(self@),
    {
        Vector3 { x: self.x.neg(), y: self.y.neg(), z: self.z.neg() }
    }

    /// Componentwise product.
    pub fn mul(self, rhs: Vector3) -> (r: Vector3)
        ensures
            r@ == v3_mul(self@, rhs@),
    {
        Vector3 { x: self.x.mul(rhs.x), y: self.y.mul(rhs.y), z: self.z.mul(rhs.z) }
    }

    /// Product with a scalar.
    pub fn scale(self, rhs: Fx) -> (r: Vector3)
        ensures
            r@ == v3_scale(self@, rhs@),
    {
        Vector3 { x: self.x.mul(rhs), y: self.y.mul(rhs), z: self.z.mul(rhs) }
    }

    /// Dot product.
    pub fn dot(&self, other: &Vector3) -> (r: Fx)
        ensures
            r@ == v3_dot(self@, other@),
    {
        self.x.mul(other.x).add(self.y.mul(other.y)).add(self.z.mul(other.z))
    }

    /// Cross product.
    pub fn cross(&self, other: &Vector3) -> (r: Vector3)
        ensures
            r@ == v3_cross(self@, other@),
    {
        Vector3 {
            x: self.y.mul(other.z).sub(self.z.mul(other.y)),
            y: self.z.mul(other.x).sub(self.x.mul(other.z)),
            z: self.x.mul(other.y).sub(self.y.mul(other.x)),
        }
    }

    /// Squared Euclidean length; never negative.
    pub fn length_squared(&self) -> (r: Fx)
        ensures
            r@ == v3_length_squared(self@),
            r@ >= 0,
    {
        proof {
            lemma_fmul_square_nonneg(self.x@);
            lemma_fmul_square_nonneg(self.y@);
            lemma_fmul_square_nonneg(self.z@);
        }
        self.dot(self)
    }

    /// Direction of the vector; the zero vector stays zero.
    pub fn normalize(&self) -> (r: Vector3)
        ensures
            r@ == v3_normalize(self@),
    {
        let len = self.length_squared().sqrt();
        if len.to_bits() == 0 {
            Vector3 { x: Fx::zero(), y: Fx::zero(), z: Fx::zero() }
        } else {
            self.scale(Fx::one().div(len))
        }
    }
}

} // verus!
