[package]
name = "rust_twitter_bot_lib"
version = "0.1.0"
edition = "2021"

[dependencies]
oauthcli = "=1.0.4"
url = "=1.7.2"
reqwest = { version = "=0.13.5", features = ["blocking", "json", "multipart"] }
serde = { version = "=1.0.229", features = ["derive"] }
serde_json = "=1.0.154"
