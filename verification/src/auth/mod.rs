//! AAA - authentication, authorization and accounting.

pub mod token;
