[package]
name = "dodatok"
version = "0.1.0"
edition = "2021"
publish = false

[dependencies]
aes-gcm-siv = "0.11"
argon2 = "0.4"
base64 = "0.21"
bitflags = "1"
blake3 = "1"
chrono = "0.4"
clap = { version = "4", features = ["derive"] }
deadpool-postgres = "0.10"
futures-util = "0.3"
hex = "0.4"
password-hash = "0.4"
poem = { version = "1", features = ["cookie", "websocket"] }
postgres-types = { version = "0.2", features = ["derive"] }
rand = "0.8"
redis = { version = "0.22", features = ["tokio-comp"] }
secstr = "0.5"
serde = { version = "1", features = ["derive"] }
serde_json = "1"
thiserror = "1"
tokio = { version = "1", features = ["rt-multi-thread", "macros", "sync"] }
toml = "0.5"
totp-lite = "2"
tracing = "0.1"
tracing-subscriber = "0.3"
