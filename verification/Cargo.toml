[package]
name = "collateral_ledger"
version = "0.1.0"
edition = "2021"
publish = false

[dependencies]
chrono = { version = "=0.4.45", features = ["serde"] }
uuid = { version = "=1.29.0", features = ["v4"] }
solana-sdk = "=1.18.26"
serde = { version = "=1.0.229", features = ["derive"] }
serde_json = "=1.0.154"
thiserror = "=1.0.69"
log = "=0.4.34"
mongodb = "=2.8.2"
bson = { version = "=2.15.0", features = ["chrono-0_4"] }
axum = { version = "=0.7.9", features = ["ws"] }
tokio = { version = "=1.54.1", features = ["full"] }
tower-http = { version = "=0.5.2", features = ["cors", "trace"] }
futures = "=0.3.34"
env_logger = "=0.11.11"
dotenv = "=0.15.0"
