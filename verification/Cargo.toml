[package]
name = "http_fs_hello"
version = "0.1.0"
edition = "2021"
publish = false

[dependencies]
wstd = "*"
