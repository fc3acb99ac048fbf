//! The single point light.

use vstd::prelude::*;

verus! {

use crate::transform::Transform;
use crate::transform::TransformS;
use crate::vector3::Vec3S;
use crate::vector3::Vector3;

/// Mathematical image of a `Light`.
pub struct LightS {
    pub ambient: Vec3S,
    pub intensity: Vec3S,
    pub transform: TransformS,
}

/// A point light: ambient color, intensity, and placement.
#[derive(Clone, Copy, PartialEq, Eq, Structural, Debug)]
pub struct Light {
    pub ambient: Vector3,
    pub intensity: Vector3,
    pub transform: Transform,
}

impl View for Light {
    type V = LightS;

    open spec fn view(&self) -> LightS {
        LightS { ambient: self.ambient@, intensity: self.intensity@, transform: self.transform@ }
    }
}

impl Light {
    /// Build a light from its parts.
    pub fn new(ambient: Vector3, intensity: Vector3, transform: Transform) -> (r: Light)
        ensures
            r@ == (LightS { ambient: ambient@, intensity: intensity@, transform: transform@ }),
    {
        Light { ambient, intensity, transform }
    }
}

} // verus!
