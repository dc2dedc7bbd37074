[package]
name = "battleship"
version = "0.1.0"
edition = "2021"
publish = false

[dependencies]
im = "*"
string-builder = "*"
serde = { version = "*", features = ["derive"] }
serde_yaml = "*"
uuid = "*"
tide = "*"
async-std = { version = "*", features = ["attributes"] }
