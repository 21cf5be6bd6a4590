[package]
name = "mars_leaderboards"
version = "0.1.0"
edition = "2021"
publish = false

[dependencies]
chrono = { version = "=0.4.45", default-features = false, features = ["std", "clock"] }
futures = "=0.3.34"
mongodb = "=2.8.2"
redis = { version = "=0.23.5", features = ["tokio-comp"] }
serde = { version = "=1.0.229", features = ["derive"] }
tokio = { version = "=1.54.1", features = ["sync", "rt", "macros"] }
uuid = { version = "=1.29.0", features = ["v4"] }
