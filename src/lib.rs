//! Bridge between an immediate-mode GUI layer (egui) and the oml-game 2D
//! renderer: texture-atlas reconciliation, conversion of host input, the per-frame
//! capture cycle and the conversion of tessellated meshes into renderer
//! vertices and triangles.
//!
//! Floating-point values never enter this library: positions, texture
//! coordinates and scale factors travel as IEEE-754 binary32 bit patterns
//! (`u32`), colors as 8-bit channels.

pub mod bridge;
pub mod input;
pub mod mesh;
pub mod registry;
pub mod texture;
