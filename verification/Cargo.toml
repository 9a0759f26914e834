[package]
name = "courier"
version = "0.1.0"
edition = "2021"
publish = false

[dependencies]
anyhow = "=1.0.104"
axum = { version = "=0.7.9", features = ["ws"] }
chrono = "=0.4.45"
clap = { version = "=4.6.7", features = ["derive"] }
futures = "=0.3.34"
futures-util = "=0.3.34"
hyper = { version = "=0.14.32", features = ["client", "http1", "tcp"] }
jsonwebtoken = "=9.3.1"
rand = "=0.8.8"
regex = "=1.13.1"
serde = { version = "=1.0.229", features = ["derive"] }
serde_json = { version = "=1.0.154", features = ["preserve_order"] }
sqlx = { version = "=0.7.4", default-features = false, features = ["runtime-tokio", "sqlite"] }
subtle = "=2.6.1"
tokio = { version = "=1.54.1", features = ["full"] }
tokio-tungstenite = "=0.21.0"
toml = "=0.8.23"
tower = "=0.4.13"
tracing = "=0.1.44"
tracing-subscriber = "=0.3.23"
uuid = { version = "=1.29.0", features = ["v4"] }
