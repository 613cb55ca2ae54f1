[package]
name = "thock"
version = "0.1.0"
edition = "2021"
publish = false

[dependencies]
serde = { version = "1", features = ["derive"] }
serde_json = "1"
fastrand = "2"
rodio = "0.20"
rdev = "0.5"
core-foundation = "0.9"
core-graphics = "0.23"
