[package]
name = "synth_export"
version = "0.1.0"
edition = "2021"
publish = false

[dependencies]
csv = "1"
serde_json = "1"
serde = { version = "1", features = ["derive"] }
anyhow = "1"
futures = "0.3"
reqwest = { version = "0.12", default-features = false, features = ["json", "rustls-tls"] }
tokio = { version = "1", features = ["macros", "rt"] }
