[package]
name = "zeebe"
version = "0.5.0"
edition = "2021"
publish = false

[dependencies]
tonic = { version = "0.11", features = ["tls"] }
prost = "0.12"
tokio = { version = "1", features = ["full"] }
tokio-stream = "0.1"
futures = "0.3"
serde = { version = "1", features = ["derive"] }
serde_json = "1"
tracing = "0.1"
tracing-futures = "0.2"
oauth2 = "4"
thiserror = "1"
