[package]
name = "otpauth"
version = "0.1.0"
edition = "2021"
publish = false

[dependencies]
qrcode = "*"
serde = { version = "*", features = ["derive"] }
urlencoding = "*"
