[package]
name = "piebot"
version = "0.1.0"
edition = "2021"
publish = false

[dependencies]
rand = "0.9"
base64_light = "0.1"
serde_json = "1"
tokio = { version = "1", features = ["macros", "rt-multi-thread", "sync"] }
reqwest = { version = "0.11", features = ["json"] }
serenity = "0.12"

[dev-dependencies]
regex-lite = "0.1"
