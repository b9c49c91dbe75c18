[package]
name = "rusty_blue"
version = "1.0.0"
edition = "2021"
publish = false

[dependencies]
base64 = "0.13"
flate2 = "1"
regex = "1"
csv = "1"
clap = "2"
lazy_static = "1"
serde = { version = "1", features = ["derive"] }
yaml-rust = "0.4"
quick-xml = { version = "*", features = ["serialize"] }
evtx = "*"
