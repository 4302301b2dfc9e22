[package]
name = "zendo_shell"
version = "0.1.0"
edition = "2021"
publish = false

[dependencies]
tauri = { version = "2", default-features = false, features = ["wry", "tray-icon"] }
tauri-plugin-store = { version = "2", default-features = false }
tauri-plugin-window-state = { version = "2", default-features = false }
