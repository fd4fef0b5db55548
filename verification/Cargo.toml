[package]
name = "perovskite"
version = "0.1.0"
edition = "2021"
publish = false

[dependencies]
anyhow = "1"
muda = "0.11"
windows-sys = { version = "0.52", features = ["Win32_Foundation", "Win32_UI_WindowsAndMessaging"] }
winit = { version = "0.29", features = ["rwh_05"] }
