[package]
name = "ffi_bridge"
version = "0.1.0"
edition = "2021"
publish = false

[dependencies]
dlopen = "0.1"
libc = "0.2"
libffi = "*"
