[package]
name = "java_access_bridge"
version = "0.1.0"
edition = "2021"
publish = false

[dependencies]
windows = { version = "=0.60.0", features = ["Win32_Foundation", "Win32_UI_WindowsAndMessaging", "Win32_System_LibraryLoader"] }
windows-core = "=0.60.1"
