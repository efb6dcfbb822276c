[package]
name = "techair"
version = "0.1.0"
edition = "2021"
publish = false

[dependencies]
rust-crypto = "0.2.36"
serialport = { version = "3", default-features = false }
clap = "2"

[dev-dependencies]
crc16 = "0.4"
