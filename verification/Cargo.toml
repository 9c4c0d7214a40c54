[package]
name = "cutlery"
version = "0.1.0"
edition = "2021"
publish = false

[dependencies]
libc = "=0.2.191"
phnt = "=0.1.2"
windows = { version = "=0.58.0", features = ["Win32_Foundation", "Win32_Security", "Win32_System_Console", "Win32_System_Threading"] }
