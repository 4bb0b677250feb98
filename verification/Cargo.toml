[package]
name = "geek_killer"
version = "0.1.0"
edition = "2021"
publish = false

[dependencies]
sysinfo = "0.32"
image = { version = "0.25", default-features = false, features = ["png"] }
windows-sys = { version = "0.52", features = ["Win32_Foundation", "Win32_Security", "Win32_Storage_FileSystem", "Win32_System_IO", "Win32_System_Ioctl", "Win32_System_RestartManager", "Win32_System_Threading", "Win32_Devices_DeviceAndDriverInstallation", "Win32_UI_Shell"] }
