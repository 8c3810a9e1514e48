[package]
name = "money_core"
version = "0.1.0"
edition = "2021"
publish = false

[dependencies]
totp-rs = { version = "5", features = ["otpauth", "gen_secret"] }
rand = "0.8"
axum = { version = "0.7", features = ["ws"] }
tokio = { version = "1", features = ["rt-multi-thread", "macros", "net", "sync", "time"] }
serde = { version = "1", features = ["derive"] }
serde_json = "1"
