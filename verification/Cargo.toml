[package]
name = "babibapp"
version = "0.1.0"
edition = "2021"
publish = false

[dependencies]
jsonwebtoken = { version = "=11.1.0", features = ["rust_crypto"] }
pwhash = "=1.0.0"
serde = { version = "=1.0.229", features = ["derive"] }
serde_json = "=1.0.151"
toml = "=1.1.7"
chrono = "=0.4.45"
dialoguer = { version = "=0.12.0", features = ["completion", "history"] }
