//! Core of a CPU software 3D rasterizer.
//!
//! The modules here hold the exactly-specified integer heart of the pipeline:
//! ARGB color packing, the depth-tested framebuffer, texture storage and
//! texel fetch, mesh face validation, the clip-plane and mode types, the
//! rasterizer dispatcher, input state, and depth ordering. Screen-space
//! geometry itself is computed in floating point by the host around this
//! library; everything that can be stated over integers is stated and proved
//! here.

pub mod clipper;
pub mod colors;
pub mod framebuffer;
pub mod input;
pub mod lines;
pub mod mesh;
pub mod modes;
pub mod rasterizer;
pub mod registry;
pub mod shader;
pub mod sorting;
pub mod texture;

pub use mesh::Face;
pub use mesh::LoadError;
pub use modes::RenderMode;
pub use modes::ShadingMode;
pub use modes::TextureMode;
pub use rasterizer::RasterizerType;
