[package]
name = "signal_relay"
version = "0.1.0"
edition = "2021"
publish = false

[dependencies]
aes-gcm = "0.10"
blake3 = "1"
hex = "0.4"
rand = "0.8"
uuid = { version = "1", features = ["v4", "serde"] }
serde = { version = "1", features = ["derive"] }
serde_json = "1"
schemars = { version = "0.8", features = ["uuid1"] }
rocket = { version = "0.5", features = ["json", "uuid"] }
rocket_okapi = { version = "0.8", features = ["swagger", "uuid"] }
sqlx = { version = "0.7", default-features = false, features = ["runtime-tokio", "postgres", "uuid"] }
tokio = { version = "1", features = ["full"] }
async-nats = "*"
reqwest = { version = "0.11", default-features = false, features = ["json"] }
dotenv = "0.15"
env_logger = "*"
