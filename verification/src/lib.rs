//! A verified model of the small WebGL pipeline used by simple canvas
//! demos: compiling a vertex/fragment shader pair, linking them into a
//! program, uploading vertex data, resizing the canvas backing buffer,
//! and issuing draw calls.
//!
//! The graphics driver itself (the GLSL compiler, the linker, the GPU)
//! is an external collaborator: its verdicts enter the model as plain
//! events, and every routine states exactly how the session state and
//! the returned handles follow from those verdicts.

pub mod context;
pub mod fixed;
pub mod geometry;
pub mod random;
pub mod shader;
