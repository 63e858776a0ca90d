[package]
name = "wasi_zlib"
version = "0.1.0"
edition = "2021"
publish = false

[dependencies]
libz-sys = "1"
wasmedge-sys = "*"
wasmedge-types = "*"
