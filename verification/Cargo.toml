[package]
name = "quatronaut"
version = "0.1.0"
edition = "2021"
publish = false

[dependencies]
amethyst = { version = "0.15", default-features = false, features = ["audio", "renderer", "empty"] }
derive-new = "0.5"
log = "0.4"
rand = "0.8"
serde = { version = "1", features = ["derive"] }
