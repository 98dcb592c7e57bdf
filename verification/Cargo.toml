[package]
name = "minibin"
version = "0.1.0"
edition = "2021"
publish = false

[dependencies]
anyhow = "1"
config = { version = "0.15", default-features = false, features = ["toml"] }
image = { version = "0.25", default-features = false, features = ["ico", "png"] }
serde = { version = "1", features = ["derive"] }
toml = "0.8"
tray-icon = "0.21"
windows-sys = { version = "0.59", features = ["Win32_Foundation", "Win32_UI_Shell", "Win32_UI_WindowsAndMessaging"] }
winit = "0.30"
