[package]
name = "komoswitch"
version = "0.1.0"
edition = "2021"
publish = false

[dependencies]
anyhow = "=1.0.104"
log = "=0.4.35"
env_logger = "=0.11.11"
serde_json = "=1.0.154"
winsafe = { version = "=0.0.29", features = ["kernel", "user", "gdi"] }
windows = { version = "0.58", features = ["UI_ViewManagement", "Win32_UI_HiDpi", "Win32_Graphics_Gdi", "Foundation"] }
