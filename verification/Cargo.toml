[package]
name = "can_hal"
version = "0.1.0"
edition = "2021"
publish = false

[dependencies]
libloading = "0.8"
libc = "0.2"
socketcan = "3"
