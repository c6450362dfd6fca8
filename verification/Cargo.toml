[package]
name = "fancontroller"
version = "0.1.0"
edition = "2021"
publish = false

[dependencies]
anyhow = "1"
libloading = "0.8"
nvml-wrapper = "=0.11.0"
serde = { version = "1", features = ["derive"] }
serde_json = "1"
tao = "0.34"
windows = { version = "0.61", features = ["Win32_Foundation", "Win32_Security", "Win32_Storage_FileSystem", "Win32_System_IO", "Win32_System_Services", "Win32_System_Threading", "Win32_UI_Shell", "Win32_UI_WindowsAndMessaging"] }
wmi = "0.17"
wry = "0.53"
