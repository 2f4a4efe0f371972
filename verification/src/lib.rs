//! Backend service framework: lifecycle, probes, logging and transport security.

pub mod auth;
pub mod behavior;
pub mod config;
pub mod handle;
pub mod http_client;
pub mod layers;
pub mod lifecycle;
pub mod logging;
pub mod probes;
pub mod spiffe_tls;
pub mod time;
pub mod tls;
pub mod util;
