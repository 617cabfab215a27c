//! A small layer between an application and an immediate-mode graphics
//! device: shader programs from declarative descriptions, growable buffers,
//! textures, and batched draws.
//!
//! The library holds no device handle and calls no device. Each operation
//! computes, from plain values, the commands that the device has to carry
//! out, in order, and the state that results on the library's side; where an
//! operation depends on what the device answers, it takes the answer as an
//! argument. The program around the library owns the device, carries out the
//! commands and hands back the answers.

pub mod buffer;
pub mod bytes;
pub mod context;
pub mod device;
pub mod diagnostics;
pub mod drawing;
pub mod error;
pub mod linking;
pub mod objects;
pub mod program;
pub mod text;

pub use buffer::{Buffer, ElementBuffer, VertexBuffer};
pub use context::Context;
pub use device::Command;
pub use error::GolemError;
pub use objects::{ColorFormat, DrawList, Surface, Texture, UniformValue};
pub use program::{
    Attribute, AttributeType, Dimension, Position, ShaderDescription, ShaderProgram, Target,
    Uniform, UniformType,
};
