[package]
name = "http_handler"
version = "0.1.0"
edition = "2021"
publish = false

[dependencies]
factory = "0.1"
httpcodec = "0.2"
bytecodec = "0.4"
