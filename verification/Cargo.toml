[package]
name = "click_debounce"
version = "0.1.0"
edition = "2021"
publish = false

[dependencies]
tray-icon = "*"
windows-sys = { version = "*", features = ["Win32_Foundation", "Win32_System_LibraryLoader", "Win32_UI_WindowsAndMessaging"] }
