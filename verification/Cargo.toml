[package]
name = "ferredge"
version = "0.1.0"
edition = "2021"
publish = false

[dependencies]
anyhow = "1"
httparse = "1"
serde = { version = "1", features = ["derive"] }
