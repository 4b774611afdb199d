[package]
name = "rename_rules"
version = "0.1.0"
edition = "2021"
publish = false

[dependencies]
regex = "=1.13.1"
serde = { version = "=1.0.229", features = ["derive"] }
tauri = { version = "2", default-features = false }
