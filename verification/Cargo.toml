[package]
name = "flowboard"
version = "0.1.0"
edition = "2021"
publish = false

[dependencies]
cod = { version = "=5.0.1", features = ["input"] }
random = "=0.14.1"
