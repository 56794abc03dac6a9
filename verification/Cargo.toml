[package]
name = "rs_usbtmc"
version = "0.1.0"
edition = "2021"
publish = false

[dependencies]
anyhow = "1"
rusb = { version = "0.9", features = ["vendored"] }
