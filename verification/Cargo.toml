[package]
name = "azero_pay"
version = "0.1.0"
edition = "2021"
publish = false

[dependencies]
ink = "=5.1.1"
k256 = { version = "=0.14.0", features = ["ecdsa"] }
parity-scale-codec = "=3.7.5"
