//! Core resource model of a small 3D rendering engine: GPU buffer objects
//! with a strict create / fill / bind / destroy lifecycle, typed element
//! encodings for index buffers, and the material ("paint") binding protocol
//! that produces shader source and binds uniforms against a program.
//!
//! The graphics backend itself (an OpenGL-style context) is an external
//! collaborator: it is reached through the [`GraphicsContext`] trait, whose
//! contract states how each call changes the context's observable state.

pub mod color;
pub mod color_material;
pub mod context;
pub mod element_buffer;
pub mod error;
pub mod lights;
pub mod material;
pub mod program;

pub use color::Color;
pub use color_material::ColorMaterial;
pub use context::GraphicsContext;
pub use element_buffer::{ElementBuffer, ElementBufferDataType};
pub use error::CoreError;
pub use material::Paint;
pub use program::Program;
