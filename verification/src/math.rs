//! Numbers, vectors and rays.

pub mod base;
pub mod ray;
pub mod scalar;
pub mod vec3;
