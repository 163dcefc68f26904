[package]
name = "rust_container"
version = "0.1.0"
edition = "2021"
publish = false

[dependencies]
libc = "=0.2.191"
syscalls = { version = "=0.6.18", features = ["aarch64", "x86_64"] }
