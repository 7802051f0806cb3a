//! Flamegraph capture engine: the data model, the per-thread span recorders,
//! the capture session and its trace format, and the GPU command-stream
//! capture types.

pub mod model;
pub mod recorder;
pub mod session;
pub mod capture;
pub mod spans;
pub mod trace;
pub mod deep_capture;
pub mod laws;
pub mod recorder_laws;
pub mod session_laws;
pub mod span_laws;
pub mod trace_laws;
