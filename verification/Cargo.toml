[package]
name = "nbody"
version = "0.1.0"
edition = "2021"
publish = false

[dependencies]
nannou = { version = "=0.18.1", default-features = false }
rfd = { version = "0.14", default-features = false, features = ["xdg-portal", "tokio"] }
serde = { version = "=1.0.229", features = ["derive"] }
serde_json = "=1.0.154"
