[package]
name = "kriptofs"
version = "0.3.0"
edition = "2021"
publish = false

[dependencies]
fuser = { version = "0.14", default-features = false }
libc = "0.2"
