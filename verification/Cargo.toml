[package]
name = "chat_relay"
version = "0.1.0"
edition = "2021"
publish = false

[dependencies]
edge-gpt = "*"
ezio = "*"
hex = "0.4"
isahc = { version = "1", features = ["json"] }
libaes = "*"
redis = { version = "*", features = ["tokio-comp"] }
regex = "1"
serde = { version = "1", features = ["derive"] }
serde_json = "1"
tokio = { version = "1", features = ["macros", "rt-multi-thread", "sync", "time"] }
