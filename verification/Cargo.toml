[package]
name = "io_sasl"
version = "0.1.0"
edition = "2021"
publish = false

[dependencies]
base64 = "=0.22.1"
hmac = "=0.12.1"
md-5 = "=0.10.6"
pbkdf2 = { version = "=0.12.2", default-features = false, features = ["hmac"] }
sha1 = "=0.10.7"
sha2 = "=0.10.9"
unicode-normalization = "=0.1.26"
