[package]
name = "weed_time"
version = "0.1.0"
edition = "2021"
publish = false

[dependencies]
serenity = "=0.11.7"
bonsaidb = { version = "=0.5.0", features = ["local", "async"] }
tokio = { version = "1", features = ["full"] }
dashmap = "=5.5.3"
dotenv = "0.15"
serde = { version = "1", features = ["derive"] }
tracing = "0.1"
tracing-subscriber = "0.3"
