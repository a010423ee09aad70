[package]
name = "own_view"
version = "0.1.0"
edition = "2021"
publish = false

[dependencies]
serde = { version = "1", features = ["derive"] }
serde_json = "1"
dirs = "*"
windows-sys = { version = "*", features = ["Win32_Foundation", "Win32_UI_WindowsAndMessaging"] }
