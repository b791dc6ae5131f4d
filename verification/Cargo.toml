[package]
name = "bevy_fighter"
version = "0.1.0"
edition = "2021"
publish = false

[dependencies]
regex = "=1.13.1"
lerp = "=0.4.0"
serde = { version = "=1.0.229", features = ["derive"] }
serde_json = "=1.0.154"
bevy = { version = "=0.6.1", default-features = false, features = ["render"] }
darling = "=0.13.4"
