[package]
name = "updater_core"
version = "0.1.0"
edition = "2021"
publish = false

[dependencies]
serde_json = "=1.0.154"
tauri = { version = "=2.12.5", default-features = false, features = ["tray-icon"] }
tauri-plugin-autostart = { version = "2", default-features = false }
tauri-plugin-updater = { version = "=2.14.0", default-features = false }
tokio = { version = "=1.54.1", default-features = false, features = ["time"] }
