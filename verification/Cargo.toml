[package]
name = "procsim"
version = "0.1.0"
edition = "2021"
publish = false

[dependencies]
serde = { version = "1", features = ["derive"] }
serde_json = "1"
color-backtrace = "0.7"
tauri = { version = "2", default-features = false, features = ["wry"] }
tauri-plugin-dialog = { version = "2", default-features = false }
