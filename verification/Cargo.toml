[package]
name = "mac_touchpad_core"
version = "0.1.0"
edition = "2021"
publish = false

[dependencies]
md-5 = "0.10"
base64 = "0.22"
image = { version = "0.25", default-features = false, features = ["png"] }
serde = { version = "1", features = ["derive"] }
serde_json = "1"
dirs = "5"
tracing = "0.1"
tracing-subscriber = { version = "0.3", features = ["env-filter"] }
windows = { version = "0.52", features = ["Win32_Foundation", "Win32_UI_WindowsAndMessaging", "Win32_UI_Input", "Win32_UI_Input_KeyboardAndMouse", "Win32_Devices_HumanInterfaceDevice", "Win32_System_LibraryLoader", "Win32_System_Threading", "Win32_Graphics_Gdi", "Win32_System_Com", "Win32_System_Wmi", "Win32_System_Variant", "Win32_System_Rpc", "Win32_System_Ole", "Win32_Storage_FileSystem", "Win32_UI_Controls_Dialogs", "Win32_UI_Shell"] }
winreg = "0.52"
