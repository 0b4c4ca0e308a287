[package]
name = "window_coordinator"
version = "0.1.0"
edition = "2021"
publish = false

[dependencies]
rust-argon2 = "=2.1.0"
serde = { version = "=1.0.229", features = ["derive"] }
serde_json = "=1.0.154"
toml = "=0.8.23"
thiserror = "=1.0.69"
tokio = { version = "=1.54.1", features = ["rt-multi-thread", "macros", "sync", "time"] }
sqlx = { version = "=0.7.4", default-features = false, features = ["runtime-tokio", "sqlite", "chrono", "json", "migrate", "macros"] }
e-utils = { version = "=0.4.20", features = ["parse"] }
e-log = "=0.4.2"
