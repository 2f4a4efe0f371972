[package]
name = "uxum"
version = "0.1.0"
edition = "2021"
publish = false

[dependencies]
async-trait = "=0.1.92"
axum = "=0.8.9"
axum-server = { version = "=0.8.0", features = ["tls-rustls-no-provider"] }
bytes = "=1.12.1"
fs-err = { version = "=3.3.2", features = ["tokio"] }
futures = "=0.3.34"
humantime-serde = "=1.1.1"
hyper = "=1.12.0"
opentelemetry_sdk = { version = "=0.33.1", default-features = false, features = ["metrics", "trace"] }
pin-project = "=1.1.13"
problemdetails = { version = "=0.7.0", features = ["axum"] }
reqwest = { version = "=0.13.5", default-features = false }
reqwest-middleware = { version = "=0.5.2", default-features = false }
reqwest-retry = { version = "=0.9.1", default-features = false }
retry-policies = "=0.5.2"
rustls = { version = "=0.23.46", default-features = false, features = ["std", "tls12"] }
rustls-pki-types = "=1.15.1"
serde = { version = "=1.0.229", features = ["derive"] }
spiffe = "=0.19.0"
spiffe-rustls = "=0.11.0"
spiffe-rustls-tokio = "=0.7.0"
thiserror = "=2.0.21"
thread-priority = "=3.1.1"
tokio = { version = "=1.54.1", features = ["full"] }
tokio-rustls = { version = "=0.26.6", default-features = false }
tokio-util = "=0.7.20"
tower = "=0.5.3"
tracing = "=0.1.44"
url = { version = "=2.5.8", features = ["serde"] }
zeroize = "=1.9.1"
