[package]
name = "gibs_rs"
version = "0.1.0"
edition = "2021"
publish = false

[dependencies]
log = "0.4"
opencv = "*"
reqwest = { version = "*", default-features = false }
url = "2"
uuid = { version = "1", features = ["v4"] }
