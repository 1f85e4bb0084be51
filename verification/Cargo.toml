[package]
name = "bsdiff_rust"
version = "0.1.0"
edition = "2021"
publish = false

[dependencies]
qbsdiff = "1.4"
napi = { version = "2", default-features = false, features = ["napi4"] }
napi-derive = "2"
tempfile = "3"
