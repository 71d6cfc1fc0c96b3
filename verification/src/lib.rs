//! A CPU ray tracer for scenes of axis-aligned textured boxes, written in
//! fixed-point arithmetic so that every stage of the pipeline — camera ray
//! generation, slab intersection, recursive shading with reflection, and
//! texture sampling — carries a proved contract.

pub mod fixed;
pub mod vec3;
pub mod color;
pub mod texture;
pub mod material;
pub mod light;
pub mod cube;
pub mod camera;
pub mod framebuffer;
pub mod render;
