//! Replay of a captured frame: the element tree's shape, the GPU command
//! stream, and the pixels of a replayed draw call.

pub mod ui_tree;
pub mod command_stream;
pub mod pixels;
pub mod render;
pub mod laws;
