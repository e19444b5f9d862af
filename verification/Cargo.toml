[package]
name = "tauri-plugin-overlay"
version = "0.1.0"
edition = "2021"
publish = false

[dependencies]
serde = { version = "1", features = ["derive"] }
serde_json = "1"
thiserror = "2"
log = "0.4"
tokio = { version = "1", features = ["sync", "rt", "macros"] }
axum = { version = "0.8", default-features = false }
tauri = { version = "2", default-features = false }
