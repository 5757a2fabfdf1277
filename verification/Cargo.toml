[package]
name = "vrchat_x3d_start_fix"
version = "0.1.0"
edition = "2021"
publish = false

[dependencies]
anyhow = "1"
core_affinity = "0.8"
crossbeam-channel = "0.5"
directories = "6"
file-rotate = "*"
image = { version = "0.25", default-features = false, features = ["png"] }
open = "5"
rust-i18n = "3"
serde = { version = "1", features = ["derive"] }
serde_json = "1"
single-instance = "0.3"
sys-locale = "0.3"
sysinfo = "0.32"
thiserror = "2"
toml = "0.8"
tracing = "0.1"
tracing-appender = "0.2"
tracing-subscriber = { version = "0.3", features = ["json"] }
tray-icon = "*"
windows = { version = "0.61", features = ["Win32_Foundation", "Win32_Security", "Win32_Security_Authorization", "Win32_System_Com", "Win32_System_TaskScheduler", "Win32_System_Variant", "Win32_System_Ole", "Win32_Graphics_Gdi", "Win32_System_LibraryLoader", "Win32_System_Threading", "Win32_UI_WindowsAndMessaging", "Win32_Storage_FileSystem"] }
