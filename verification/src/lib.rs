//! WGPUI: flamegraph capture and replay, horizontal lists, task dispatch.

pub mod byte_order;
pub mod elements;
pub mod flamegraph;
pub mod flamegraph_gpu;
pub mod flamegraph_replay;
pub mod flamegraph_ui_capture;
pub mod platform;
