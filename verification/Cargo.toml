[package]
name = "poe2_weapon"
version = "0.1.0"
edition = "2021"
publish = false

[dependencies]
copypasta = "0.10"
enigo = "0.3"
once_cell = "1"
open = "5"
rdev = "0.5"
serde = { version = "1", features = ["derive"] }
serde_json = "1"
