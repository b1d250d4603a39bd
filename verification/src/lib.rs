//! An ASCII-art ray tracer: a reflective sphere above a ground plane,
//! lit by a point light that circles the vertical axis, rendered as a
//! grid of palette characters.
//!
//! All geometry is carried out in fixed-point arithmetic (integers
//! scaled by a power of two), so every routine of the pipeline has an
//! exact mathematical model and a proved contract.

pub mod fixed;
pub mod vec3;
pub mod scene;
pub mod intersect;
pub mod shade;
pub mod render;
pub mod anim;
pub mod laws;
