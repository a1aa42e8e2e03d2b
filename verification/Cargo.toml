[package]
name = "rust_win32error"
version = "0.9.0"
edition = "2021"
publish = false

[dependencies]
kernel32-sys = "0.2"
