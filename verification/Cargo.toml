[package]
name = "deepcool_lite"
version = "0.1.0"
edition = "2021"
publish = false

[dependencies]
hidapi = "2"
raw-window-handle = "0.6"
slint = { version = "1", default-features = false, features = ["std", "compat-1-2"] }
winreg = "0.52"
windows-sys = { version = "0.52", features = ["Win32_Foundation", "Win32_Security", "Win32_System_Services", "Win32_System_Threading", "Win32_Graphics_Dwm", "Win32_System_LibraryLoader", "Win32_UI_WindowsAndMessaging"] }
