//! Two-component vectors, used for texture coordinates and
//! screen-space edge arithmetic.

use vstd::prelude::*;

verus! {

use crate::fixed::Fx;
use crate::fixed::fadd;
use crate::fixed::fmul;
use crate::fixed::fsub;

/// Mathematical image of a `Vector2`: its components as bit counts.
pub struct Vec2S {
    pub x: int,
    pub y: int,
}

/// Componentwise sum.
pub open spec fn v2_add(a: Vec2S, b: Vec2S) -> Vec2S {
    Vec2S { x: fadd(a.x, b.x), y: fadd(a.y, b.y) }
}

/// Componentwise product.
pub open spec fn v2_mul(a: Vec2S, b: Vec2S) -> Vec2S {
    Vec2S { x: fmul(a.x, b.x), y: fmul(a.y, b.y) }
}

/// Product with a scalar.
pub open spec fn v2_scale(a: Vec2S, s: int) -> Vec2S {
    Vec2S { x: fmul(a.x, s), y: fmul(a.y, s) }
}

/// Dot product.
pub open spec fn v2_dot(a: Vec2S, b: Vec2S) -> int {
    fadd(fmul(a.x, b.x), fmul(a.y, b.y))
}

/// The z-component of the cross product of the two vectors lifted to
/// the plane.
pub open spec fn v2_cross(a: Vec2S, b: Vec2S) -> int {
    fsub(fmul(a.x, b.y), fmul(a.y, b.x))
}

/// A two-component vector of fixed-point scalars.
#[derive(Clone, Copy, PartialEq, Eq, Structural, Debug)]
pub struct Vector2 {
    pub x: Fx,
    pub y: Fx,
}

impl View for Vector2 {
    type V = Vec2S;

    open spec fn view(&self) -> Vec2S {
        Vec2S { x: self.x@, y: self.y@ }
    }
}

impl Vector2 {
    /// Build a vector from its components.
    pub fn new(x: Fx, y: Fx) -> (r: Vector2)
        ensures
            r@ == (Vec2S { x: x@, y: y@ }),
    {
        Vector2 { x, y }
    }

    /// Dot product.
    pub fn dot(&self, other: Vector2) -> (r: Fx)
        ensures
            r@ == v2_dot(self@, other@),
    {
        self.x.mul(other.x).add(self.y.mul(other.y))
    }

    /// The z-component of the cross product.
    pub fn cross(&self, other: Vector2) -> (r: Fx)
        ensures
            r@ == v2_cross(self@, other@),
    {
        self.x.mul(other.y).sub(self.y.mul(other.x))
    }

    /// Componentwise sum.
    pub fn add(self, rhs: Vector2) -> (r: Vector2)
        ensures
            r@ == v2_add(self@, rhs@),
    {
        Vector2 { x: self.x.add(rhs.x), y: self.y.add(rhs.y) }
    }

    /// Componentwise product.
    pub fn mul(self, rhs: Vector2) -> (r: Vector2)
        ensures
            r@ == v2_mul(self@, rhs@),
    {
        Vector2 { x: self.x.mul(rhs.x), y: self.y.mul(rhs.y) }
    }

    /// Product with a scalar.
    pub fn scale(self, rhs: Fx) -> (r: Vector2)
        ensures
            r@ == v2_scale(self@, rhs@),
    {
        Vector2 { x: self.x.mul(rhs), y: self.y.mul(rhs) }
    }
}

} // verus!
