[package]
name = "imagecodes"
version = "0.1.0"
edition = "2021"
publish = false

[dependencies]
qrcode = { version = "0.12", default-features = false }
image = "0.22"
barcoders = { version = "1", default-features = false }
tide = "0.16"
async-std = { version = "1", features = ["attributes"] }

[dev-dependencies]
qrcode = "0.12"
rqrr = "*"
