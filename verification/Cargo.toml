[package]
name = "watchsession"
version = "0.1.0"
edition = "2021"
publish = false

[dependencies]
notify = "*"
serde_json = "*"

[dev-dependencies]
tempfile = "*"
