[package]
name = "explainer"
version = "0.1.0"
edition = "2021"
publish = false

[dependencies]
anyhow = "*"
libsqlite3-sys = { version = "*", features = ["bundled"] }
