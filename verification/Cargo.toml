[package]
name = "pulsar"
version = "0.1.0"
edition = "2021"
publish = false

[dependencies]
rand = "0.8"
rodio = { version = "0.19", default-features = false }
