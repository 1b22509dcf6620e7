[package]
name = "facebook_api"
version = "0.1.0"
edition = "2021"
publish = false

[dependencies]
percent-encoding = "2"
reqwest = { version = "0.12", features = ["json"] }
serde = { version = "1", features = ["derive"] }
