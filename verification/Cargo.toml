[package]
name = "bitcoin_handshake"
version = "0.1.0"
edition = "2021"
publish = false

[dependencies]
bitcoin = { version = "0.29", features = ["serde"] }
chrono = { version = "0.4", default-features = false, features = ["clock", "std"] }
rand = "0.8"
tokio = { version = "1", features = ["full"] }
futures = "0.3"
async-stream = "0.3"
tracing = "0.1"
thiserror = "1"
anyhow = "1"
config = { version = "0.13", default-features = false, features = ["toml"] }
serde = { version = "1", features = ["derive"] }
