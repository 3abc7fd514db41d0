[package]
name = "microcc"
version = "0.1.0"
edition = "2021"
publish = false

[dependencies]
linked-hash-map = "*"
regex = "*"
serde_json = "*"
tempfile = "*"
