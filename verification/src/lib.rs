//! Verified core of a browser physics demo: asset locations, surface
//! configuration and frame decisions, instance buffer layout, and mesh
//! vertex assembly.

pub mod assets;
pub mod instance;
pub mod mesh;
pub mod surface;
