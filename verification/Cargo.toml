[package]
name = "wifi_qr_rs"
version = "0.1.0"
edition = "2021"
publish = false

[dependencies]
qrcode = "*"
image = "*"
clap = { version = "*", features = ["derive"] }
log = "*"
env_logger = "*"
