[package]
name = "forum_core"
version = "0.1.0"
edition = "2021"
publish = false

[dependencies]
zxcvbn = "2"
slug = "0.1"
serde = { version = "1", features = ["derive"] }
serde_json = "1"
