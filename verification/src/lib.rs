//! Verified core of a node-preview renderer: which preview surfaces need a
//! redraw and what is drawn into them, and how a texture that was copied into a
//! row-aligned staging buffer is brought back to tightly packed bytes.
//!
//! Nothing here talks to a GPU. The functions decide and compute; the caller
//! acquires frames, submits passes and maps buffers, and reports what happened.

pub mod fault;
pub mod format;
pub mod layout;
pub mod letterbox;
pub mod node_types;
pub mod preview_manager;
pub mod readback;
pub mod surface;
