[package]
name = "aes_bench"
version = "0.1.0"
edition = "2021"
publish = false

[dependencies]
aes = "0.8"
aes-gcm = { version = "0.10", default-features = false, features = ["aes", "alloc"] }
cbc = "0.1"
hex = "0.4"
