[package]
name = "package_json"
version = "0.1.0"
edition = "2021"
publish = false

[dependencies]
anyhow = "1"
derive_builder = "*"
serde = { version = "1", features = ["derive"] }
serde_json = { version = "1", features = ["preserve_order"] }

[dev-dependencies]
tempfile = "3"
