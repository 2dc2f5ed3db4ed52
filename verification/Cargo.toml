[package]
name = "tide_rustls"
version = "0.1.0"
edition = "2021"
publish = false

[dependencies]
async-dup = "=1.2.4"
async-h1 = "=2.3.4"
async-rustls = "=0.2.0"
async-std = "=1.13.2"
rustls = { version = "=0.19.1", features = ["dangerous_configuration"] }
tide = "=0.16.0"

[dev-dependencies]
base64 = "=0.13.1"
ring = "=0.16.20"
