[package]
name = "global_shortcut"
version = "0.1.0"
edition = "2021"
publish = false

[dependencies]
serde = "=1.0.229"
tauri = { version = "=2.12.1", default-features = false }
tauri-plugin-global-shortcut = "=2.4.0"
global-hotkey = "=0.8.0"
