[package]
name = "sindri"
version = "0.1.0"
edition = "2021"
publish = false

[dependencies]
aes-gcm = "0.10"
clap = { version = "4", features = ["derive"] }
hex = "0.4"
log = "0.4"
simple_logger = "*"
