[package]
name = "game_lifecycle"
version = "0.1.0"
edition = "2021"
publish = false

[dependencies]
sha2 = "*"
hex = "*"
cosmwasm-std = "*"
cw-storage-plus = "*"
serde = { version = "*", features = ["derive"] }
