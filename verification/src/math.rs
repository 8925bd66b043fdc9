//! The numeric core: the register model and the value types built on it.

pub mod bits;
pub mod laws;
pub mod quat;
pub mod reg;
pub mod vec3;
pub mod vec4;
