[package]
name = "crasher"
version = "0.1.0"
edition = "2021"
publish = false

[dependencies]
crash-handler = "0.6"
libc = "=0.2.191"
minidump-writer = "0.10"
