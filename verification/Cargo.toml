[package]
name = "broadcast_relay"
version = "0.1.0"
edition = "2021"
publish = false

[dependencies]
futures = "=0.3.34"
gotham = "0.7"
openssl = "=0.10.81"
postgres-openssl = "=0.3.0"
reqwest = { version = "=0.10.10", features = ["json"] }
serde = { version = "=1.0.229", features = ["derive"] }
telegram-bot = "=0.8.0"
tokio = { version = "=0.2.25", features = ["full"] }
tokio-postgres = "=0.5.5"
