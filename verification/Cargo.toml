[package]
name = "keystone"
version = "0.1.0"
edition = "2021"
publish = false

[dependencies]
toml = "=0.8.23"
chrono = "=0.4.45"
libloading = "=0.8.9"
log = "=0.4.34"
windows-sys = { version = "=0.59.0", features = ["Win32_Foundation", "Win32_Graphics_Gdi", "Win32_System_LibraryLoader", "Win32_UI_WindowsAndMessaging", "Win32_UI_HiDpi"] }
asio-sys = "=0.2.6"
