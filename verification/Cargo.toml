[package]
name = "chat_relay"
version = "0.1.0"
edition = "2021"
publish = false

[dependencies]
anyhow = "=1.0.104"
chrono = "=0.4.45"
poise = "=0.6.2"
reqwest = { version = "=0.11.27", features = ["json"] }
serde = { version = "=1.0.229", features = ["derive"] }
serde_json = "=1.0.154"
serenity = { version = "=0.12.5", features = ["chrono"] }
shuttle-runtime = "=0.44.0"
shuttle-secrets = "=0.42.0"
shuttle-serenity = "=0.44.0"
tracing = "=0.1.44"
