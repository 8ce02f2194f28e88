//! Verified core of a small ray-traced scene renderer: colours, materials,
//! nearest-hit resolution and the framebuffer, with the decisions that the
//! camera and the primitives make.
//!
//! Real numbers enter the library as IEEE-754 single-precision bit patterns
//! (`Scalar`): the library orders and classifies them, and does no arithmetic
//! on them.

pub mod camera;
pub mod color;
pub mod cube;
pub mod framebuffer;
pub mod light;
pub mod material;
pub mod ray_intersect;
pub mod scalar;
pub mod sphere;
pub mod texture;
pub mod tracer;
pub mod vector;
