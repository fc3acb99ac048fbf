//! Texture-slot indices of one material.

use vstd::prelude::*;

verus! {

/// Which texture slot holds each of a material's maps.
#[derive(Clone, Copy, PartialEq, Eq, Structural, Debug)]
pub struct Material {
    pub basecolor_map: u32,
    pub metallic_map: u32,
    pub emission_map: u32,
    pub roughness_map: u32,
    pub normal_map: u32,
    pub occlusion_map: u32,
}

} // verus!
