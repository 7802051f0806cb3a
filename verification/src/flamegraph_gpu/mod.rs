//! GPU-side timestamp capture: which queries a frame reserves, when they are
//! read back, and how ticks become spans.

pub mod generation;
pub mod manager;
pub mod ticks;
pub mod laws;
