[package]
name = "rabbit_bridge"
version = "0.1.0"
edition = "2021"
publish = false

[dependencies]
amiquip = { version = "*", default-features = false }
actix = "*"
