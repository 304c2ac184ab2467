//! Resource bookkeeping, validation and command planning for a wgpu
//! rendering backend.
//!
//! The library decides; the GPU work itself (creating buffers, textures,
//! pipelines, recording and submitting command buffers) is performed by the
//! caller with the values that the library hands back.
pub mod error;
pub mod types;
pub mod buffers;
pub mod vertex;
pub mod mesh;
pub mod texture;
pub mod bindings;
pub mod shader;
pub mod compute;
pub mod pipeline;
pub mod resources;
pub mod bridge;
pub mod render;
pub mod laws;

