[package]
name = "hypermon"
version = "0.1.0"
edition = "2021"
publish = false

[dependencies]
prettytable-rs = "*"
clap = "2"
virt = "*"

[dev-dependencies]
serde_json = "*"
