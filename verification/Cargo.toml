[package]
name = "kime_engine"
version = "0.1.0"
edition = "2021"
publish = false

[dependencies]
ahash = "0.8"
serde = { version = "1", features = ["derive"] }
serde_yaml = "0.9"
xdg = "2"
