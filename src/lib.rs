//! The decisions of a stochastic path tracer, on plain integer values: which primitive a ray
//! meets first, whether a light is blocked, when a path ends, and how a pixel is packed.
pub mod color;
pub mod frame;
pub mod hit;
pub mod path;
