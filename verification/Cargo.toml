[package]
name = "finance"
version = "0.1.0"
edition = "2021"
publish = false

[dependencies]
chrono = "=0.4.45"
deadpool-postgres = "=0.14.2"
futures = "=0.3.34"
serde = { version = "=1.0.229", features = ["derive"] }
tokio = { version = "=1.53.2", features = ["rt-multi-thread", "macros", "time"] }
tokio-postgres = { version = "=0.7.18", features = ["with-chrono-0_4"] }
toml = "=1.1.7"
