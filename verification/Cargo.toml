[package]
name = "ui_events_adapters"
version = "0.1.0"
edition = "2021"
publish = false

[dependencies]
ui-events = "*"
dpi = "*"
wayland-client = "*"
wayland-protocols = { version = "*", features = ["client", "unstable", "staging"] }
winit = "*"
web-sys = { version = "*", features = ["Event", "InputEvent", "CompositionEvent"] }
windows-sys = { version = "*", features = ["Win32_Foundation", "Win32_UI_WindowsAndMessaging", "Win32_UI_Input_KeyboardAndMouse", "Win32_UI_Input_Ime", "Win32_UI_Input_Touch", "Win32_UI_Controls", "Win32_Graphics_Gdi", "Win32_System_SystemServices"] }
