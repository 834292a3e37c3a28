[package]
name = "ntp64"
version = "0.1.0"
edition = "2021"
publish = false

[dependencies]
humantime = "2"
serde = { version = "1", features = ["derive"] }

[dev-dependencies]
rand = "0.8"
regex = "1"
