[package]
name = "slack_irc"
version = "0.1.0"
edition = "2021"
publish = false

[dependencies]
bcrypt = "0.10"
config = { version = "0.9", default-features = false, features = ["toml"] }
failure = "0.1"
futures = "0.1"
irc = "0.14"
rusqlite = { version = "0.14", features = ["bundled"] }
serde = { version = "1", features = ["derive"] }
serde_derive = "1"
serde_json = "1"
slack = "0.22"
slack_api = "0.21"
tokio = "0.1"
tokio-io = "0.1"
