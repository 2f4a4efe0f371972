//! Log output.

pub mod batch;
pub mod http;
pub mod queue;
