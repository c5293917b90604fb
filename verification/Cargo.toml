[package]
name = "bootloader"
version = "0.1.0"
edition = "2021"
publish = false

[dependencies]
log = "*"
uefi = { version = "*", features = ["alloc", "logger"] }
