[package]
name = "hostload"
version = "0.1.0"
edition = "2021"
publish = false

[dependencies]
colored = "=3.1.1"
windows = { version = "=0.62.2", features = [
    "Win32_Foundation",
    "Win32_Security",
    "Win32_Storage_FileSystem",
    "Win32_System_IO",
    "Win32_System_Ioctl",
    "Win32_System_Performance",
    "Win32_System_Power",
    "Win32_System_SystemInformation",
    "Win32_System_Threading",
] }
