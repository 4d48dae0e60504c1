[package]
name = "palette_core"
version = "0.1.0"
edition = "2021"
publish = false

[dependencies]
toml = "0.8"
ratatui = { version = "0.29", default-features = false }
egui = { version = "0.29", default-features = false }
serde = { version = "1", features = ["derive"] }
serde_json = "1"
