[package]
name = "lolcap"
version = "0.1.0"
edition = "2021"
publish = false

[dependencies]
anyhow = "=1.0.104"
arrow = { version = "=53.4.1", default-features = false }
once_cell = "=1.21.4"
parquet = { version = "=53.4.1", default-features = false, features = ["arrow", "snap"] }
windows = { version = "=0.58.0", features = ["Win32_Foundation", "Win32_Graphics_Gdi", "Win32_System_LibraryLoader", "Win32_UI_Accessibility", "Win32_UI_WindowsAndMessaging"] }
windows-capture = "=1.4.4"
