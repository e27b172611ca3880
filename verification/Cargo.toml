[package]
name = "identity-aauth"
version = "0.1.0"
edition = "2021"
publish = false

[dependencies]
anyhow = "1"
metrics = "0.24"
reqwest = { version = "0.12", default-features = false, features = ["blocking", "rustls-tls"] }
serde = { version = "1", features = ["derive"] }
serde_json = "1"
sha2 = "0.10"
tracing = "0.1"

[dev-dependencies]
ed25519-dalek = "2"
