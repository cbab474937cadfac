[package]
name = "disable_apm"
version = "0.1.0"
edition = "2021"
publish = false

[dependencies]
anyhow = "=1.0.104"
clap = { version = "=4.6.7", features = ["derive"] }
console = "=0.15.11"
windows = { version = "=0.62.2", features = ["Win32_Foundation", "Win32_Security", "Win32_Storage_FileSystem", "Win32_Storage_IscsiDisc", "Win32_System_Ioctl", "Win32_System_IO", "Win32_Devices_DeviceAndDriverInstallation"] }
