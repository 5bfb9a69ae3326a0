[package]
name = "syscall_info"
version = "0.1.0"
edition = "2021"
publish = false

[dependencies]
anyhow = "1"
libc = "0.2"
nix = { version = "*", features = ["process"] }
serde = { version = "1", features = ["derive"] }
serde_json = "1"
syscalls = "*"
