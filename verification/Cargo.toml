[package]
name = "mem_arena"
version = "0.1.0"
edition = "2021"
publish = false

[dependencies]
windows-sys = { version = "*", features = ["Win32_System_Memory", "Win32_System_SystemInformation"] }
