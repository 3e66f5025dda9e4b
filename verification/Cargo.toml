[package]
name = "clipboard_image"
version = "0.1.0"
edition = "2021"
publish = false

[dependencies]
base64 = "=0.22.1"
serde = { version = "1", features = ["derive"] }
tauri = { version = "2", default-features = false }
tauri-plugin-localhost = { version = "2", default-features = false }
tauri-plugin-window-state = { version = "2", default-features = false }
