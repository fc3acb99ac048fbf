//! A CPU-side triangle rasterization and shading pipeline: meshes
//! are transformed into screen space, scan-converted with a depth
//! buffer and perspective-correct interpolation, and shaded with a
//! Cook-Torrance metallic-roughness model.
//!
//! All real-valued arithmetic runs on an exact saturating
//! fixed-point scalar, so every stage's result is pinned down by a
//! specification over plain integers. File decoding, window output
//! and trigonometric evaluation live outside the library; its
//! entry points take fully formed meshes, textures, cameras and
//! frame buffers.

pub mod camera;
pub mod fixed;
pub mod framebuffer;
pub mod light;
pub mod material;
pub mod math;
pub mod matrix3;
pub mod matrix4;
pub mod mesh;
pub mod pipeline;
pub mod quat;
pub mod scene;
pub mod texture;
pub mod transform;
pub mod vector2;
pub mod vector3;
pub mod vector4;
