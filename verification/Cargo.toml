[package]
name = "shred"
version = "1.0.0"
edition = "2021"
publish = false

[dependencies]
clap = "2"
rand = "0.8"

[dev-dependencies]
tempfile = "3"
