//! Four-component vectors: homogeneous positions and RGBA colors.

use vstd::prelude::*;

verus! {

use crate::fixed::FX_SCALE;
use crate::fixed::Fx;
use crate::fixed::fadd;
use crate::fixed::fclamp;
use crate::fixed::fmul;
use crate::fixed::fsub;
use crate::vector3::Vec3S;
use crate::vector3::Vector3;

/// Mathematical image of a `Vector4`: its components as bit counts.
pub struct Vec4S {
    pub x: int,
    pub y: int,
    pub z: int,
    pub w: int,
}

/// Componentwise sum.
pub open spec fn v4_add(a: Vec4S, b: Vec4S) -> Vec4S {
    Vec4S { x: fadd(a.x, b.x), y: fadd(a.y, b.y), z: fadd(a.z, b.z), w: fadd(a.w, b.w) }
}

/// Componentwise difference.
pub open spec fn v4_sub(a: Vec4S, b: Vec4S) -> Vec4S {
    Vec4S { x: fsub(a.x, b.x), y: fsub(a.y, b.y), z: fsub(a.z, b.z), w: fsub(a.w, b.w) }
}

/// Componentwise product.
pub open spec fn v4_mul(a: Vec4S, b: Vec4S) -> Vec4S {
    Vec4S { x: fmul(a.x, b.x), y: fmul(a.y, b.y), z: fmul(a.z, b.z), w: fmul(a.w, b.w) }
}

/// Product with a scalar.
pub open spec fn v4_scale(a: Vec4S, s: int) -> Vec4S {
    Vec4S { x: fmul(a.x, s), y: fmul(a.y, s), z: fmul(a.z, s), w: fmul(a.w, s) }
}

/// Dot product.
pub open spec fn v4_dot(a: Vec4S, b: Vec4S) -> int {
    fadd(fadd(fadd(fmul(a.x, b.x), fmul(a.y, b.y)), fmul(a.z, b.z)), fmul(a.w, b.w))
}

/// The first three components.
pub open spec fn v4_xyz(a: Vec4S) -> Vec3S {
    Vec3S { x: a.x, y: a.y, z: a.z }
}

/// One color channel packed to a byte: clamped to `[0, 1]`, scaled to
/// 255 and truncated.
pub open spec fn pack_channel(c: int) -> int {
    (fclamp(c, 0, FX_SCALE as int) * 255) / (FX_SCALE as int)
}

/// A color packed into one 32-bit word, alpha in the top byte, then
/// red, green, blue.
pub open spec fn pack_color(a: Vec4S) -> int {
    pack_channel(a.w) * 0x1000000 + pack_channel(a.x) * 0x10000 + pack_channel(a.y) * 0x100
        + pack_channel(a.z)
}

/// A four-component vector of fixed-point scalars.
#[derive(Clone, Copy, PartialEq, Eq, Structural, Debug)]
pub struct Vector4 {
    pub x: Fx,
    pub y: Fx,
    pub z: Fx,
    pub w: Fx,
}

impl View for Vector4 {
    type V = Vec4S;

    open spec fn view(&self) -> Vec4S {
        Vec4S { x: self.x@, y: self.y@, z: self.z@, w: self.w@ }
    }
}

/// Pack one channel to a byte.
fn pack_channel_exec(c: Fx) -> (r: u32)
    ensures
        r as int == pack_channel(c@),
        r <= 255,
{
    let clamped: Fx = c.clamp(Fx::zero(), Fx::one());
    let wide: i64 = clamped.to_bits() * 255;
    let byte: i64 = wide.checked_div_euclid(FX_SCALE).unwrap();
    byte as u32
}

impl Vector4 {
    /// Build a vector from its components.
    pub fn new(x: Fx, y: Fx, z: Fx, w: Fx) -> (r: Vector4)
        ensures
            r@ == (Vec4S { x: x@, y: y@, z: z@, w: w@ }),
    {
        Vector4 { x, y, z, w }
    }

    /// Extend a three-component vector with a unit homogeneous
    /// coordinate.
    pub fn from_vector3(v: Vector3) -> (r: Vector4)
        ensures
            r@ == (Vec4S { x: v@.x, y: v@.y, z: v@.z, w: FX_SCALE as int }),
    {
        Vector4 { x: v.x, y: v.y, z: v.z, w: Fx::one() }
    }

    /// Dot product.
    pub fn dot(&self, rhs: &Vector4) -> (r: Fx)
        ensures
            r@ == v4_dot(self@, rhs@),
    {
        self.x.mul(rhs.x).add(self.y.mul(rhs.y)).add(self.z.mul(rhs.z)).add(self.w.mul(rhs.w))
    }

    /// Pack to a 32-bit color word, each channel clamped to `[0, 1]`
    /// before scaling to a byte.
    pub fn to_u32(&self) -> (r: u32)
        ensures
            r as int == pack_color(self@),
    {
        let r: u32 = pack_channel_exec(self.x);
        let g: u32 = pack_channel_exec(self.y);
        let b: u32 = pack_channel_exec(self.z);
        let a: u32 = pack_channel_exec(self.w);
        a * 0x1000000 + r * 0x10000 + g * 0x100 + b
    }

    /// The first three components.
    pub fn xyz(&self) -> (r: Vector3)
        ensures
            r@ == v4_xyz(self@),
    {
        Vector3 { x: self.x, y: self.y, z: self.z }
    }

    /// Componentwise sum.
    pub fn add(self, rhs: Vector4) -> (r: Vector4)
        ensures
            r@ == v4_add(self@, rhs@),
    {
        Vector4 {
            x: self.x.add(rhs.x),
            y: self.y.add(rhs.y),
            z: self.z.add(rhs.z),
            w: self.w.add(rhs.w),
        }
    }

    /// Componentwise difference.
    pub fn sub(self, rhs: Vector4) -> (r: Vector4)
        ensures
            r@ == v4_sub(self@, rhs@),
    {
        Vector4 {
            x: self.x.sub(rhs.x),
            y: self.y.sub(rhs.y),
            z: self.z.sub(rhs.z),
            w: self.w.sub(rhs.w),
        }
    }

    /// Componentwise product.
    pub fn mul(self, rhs: Vector4) -> (r: Vector4)
        ensures
            r@ == v4_mul(self@, rhs@),
    {
        Vector4 {
            x: self.x.mul(rhs.x),
            y: self.y.mul(rhs.y),
            z: self.z.mul(rhs.z),
            w: self.w.mul(rhs.w),
        }
    }

    /// Product with a scalar.
    pub fn scale(self, rhs: Fx) -> (r: Vector4)
        ensures
            r@ == v4_scale(self@, rhs@),
    {
        Vector4 {
            x: self.x.mul(rhs),
            y: self.y.mul(rhs),
            z: self.z.mul(rhs),
            w: self.w.mul(rhs),
        }
    }
}

} // verus!
