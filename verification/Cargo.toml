[package]
name = "glimt"
version = "0.1.0"
edition = "2021"
publish = false

[dependencies]
ab_glyph = "0.2"
anyhow = "1"
arboard = { version = "3.6", default-features = false, features = ["image-data"] }
auto-launch = "0.6"
chrono = { version = "0.4", default-features = false, features = ["clock"] }
dirs = "6"
eframe = { version = "0.34", default-features = false, features = ["default_fonts", "wgpu", "x11"] }
egui = "0.34"
gif = "0.14"
global-hotkey = "0.7"
image = { version = "0.25", default-features = false, features = ["png"] }
serde = { version = "1", features = ["derive"] }
serde_json = "1"
tiny-skia = "0.11"
windows = { version = "0.62", features = ["Win32_Foundation", "Win32_Graphics_Gdi", "Win32_Graphics_Dwm", "Win32_System_LibraryLoader", "Win32_System_Registry", "Win32_System_Threading", "Win32_UI_Controls", "Win32_UI_Input_KeyboardAndMouse", "Win32_UI_WindowsAndMessaging"] }
windows-capture = "1.5"
