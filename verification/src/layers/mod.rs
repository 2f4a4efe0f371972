//! Layers that requests pass through.

pub mod ext;
