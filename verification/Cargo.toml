[package]
name = "omagari"
version = "0.1.0"
edition = "2021"
publish = false

[dependencies]
regex = "=1.13.1"
serde = { version = "=1.0.229", features = ["derive"] }
ron = "=0.11.0"
bevy = { version = "=0.17.3", default-features = false }
bevy_hanabi = { version = "=0.17.0", default-features = false, features = ["3d", "serde"] }
