[package]
name = "steadi_shell"
version = "0.1.0"
edition = "2021"
publish = false

[dependencies]
tauri = { version = "2", default-features = false }
tauri-plugin-global-shortcut = "2"
objc2-app-kit = "0.3"
objc2-quartz-core = "0.3"
