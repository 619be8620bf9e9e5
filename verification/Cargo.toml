[package]
name = "params_bind"
version = "0.1.0"
edition = "2021"
publish = false

[dependencies]
sonic-rs = "*"
serde_urlencoded = "*"
mime = "*"
