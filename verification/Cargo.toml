[package]
name = "xtaskops"
version = "0.1.0"
edition = "2021"
publish = false

[dependencies]
duct = "*"
fs_extra = "*"
glob = "*"
serde_json = "*"
clap = { version = "*", features = ["derive"] }
dialoguer = "*"
