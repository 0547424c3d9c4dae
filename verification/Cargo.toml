[package]
name = "check_disk"
version = "0.1.0"
edition = "2021"
publish = false

[dependencies]
rand = "0.8"
indicatif = "0.17"

[dev-dependencies]
tempfile = "3"
