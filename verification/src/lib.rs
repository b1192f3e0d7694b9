//! A minimal static-mesh viewer library.
//!
//! The crate holds the decision logic of a small viewer: loading a
//! Wavefront OBJ mesh into a flat vertex sequence, planning the GPU
//! upload and draw call for that sequence, building the combined
//! view-projection matrix, checking shader build status, and the
//! two-state event loop that runs until the user asks to close.

pub mod camera;
pub mod gpu;
pub mod mesh;
pub mod render;
