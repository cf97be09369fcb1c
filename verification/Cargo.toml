[package]
name = "cyw43"
version = "0.1.0"
edition = "2021"
publish = false

[dependencies]
defmt = "*"
embassy-net-driver-channel = "*"
embassy-time = "*"
