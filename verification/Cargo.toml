[package]
name = "winctl"
version = "0.1.0"
edition = "2021"
publish = false

[dependencies]
x11rb = "=0.14.0"
windows = { version = "=0.58.0", features = ["Win32_Foundation", "Win32_UI_WindowsAndMessaging"] }
