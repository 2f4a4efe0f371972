//! Various utility functions.

pub mod cancel;
pub mod str;
