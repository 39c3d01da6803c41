[package]
name = "lavalink_client"
version = "0.1.0"
edition = "2021"
publish = false

[dependencies]
dashmap = "4"
futures-channel = "0.3"
percent-encoding = "2"
serde = { version = "1", features = ["derive"] }
serde_json = "1"
http = "0.2"
twilight-model = "*"
