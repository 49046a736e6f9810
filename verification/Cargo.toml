[package]
name = "usfx_tester"
version = "0.1.0"
edition = "2021"
publish = false

[dependencies]
usfx = "*"
cpal = "*"
chrono = "*"
serde = { version = "*", features = ["derive"] }
serde_json = "*"
