[package]
name = "vvclient"
version = "0.1.0"
edition = "2021"
publish = false

[dependencies]
serde = { version = "=1.0.229", features = ["derive"] }
serde_json = "=1.0.154"
anyhow = "=1.0.104"
log = "=0.4.35"
tracing = "=0.1.44"
tokio = { version = "=1.54.1", features = ["rt-multi-thread", "time", "sync", "macros", "net", "signal"] }
tokio-tungstenite = { version = "=0.30.0", default-features = false, features = ["connect", "rustls-tls-webpki-roots"] }
futures = "=0.3.34"
rustls = { version = "=0.23.46", default-features = false, features = ["ring", "std", "tls12", "logging"] }
rustls-pemfile = "=2.2.0"
webpki-roots = "=1.0.10"
thiserror = "=2.0.21"
syn = { version = "=2.0.119", features = ["full"] }
proc-macro2 = "=1.0.107"
