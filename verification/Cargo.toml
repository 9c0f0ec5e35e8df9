[package]
name = "settings_store"
version = "0.1.0"
edition = "2021"
publish = false

[dependencies]
rusqlite = { version = "=0.41.0", features = ["bundled"] }
anyhow = "=1.0.104"
log = "=0.4.34"
lazy_static = "=1.5.1"
tauri = { version = "2", default-features = false }
