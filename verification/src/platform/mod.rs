//! Platform integration.

pub mod dispatcher;
