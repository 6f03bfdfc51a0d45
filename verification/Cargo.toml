[package]
name = "lolbunny"
version = "0.1.0"
edition = "2021"
publish = false

[dependencies]
rocket = "0.5"
lazy_static = "1"

[dev-dependencies]
percent-encoding = "2"
