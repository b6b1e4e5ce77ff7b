[package]
name = "ecommerce"
version = "0.1.0"
edition = "2021"
publish = false

[dependencies]
anyhow = "1"
argon2 = "0.5"
axum = { version = "0.6", features = ["headers", "macros"] }
base64 = "0.21"
bson = { version = "2", features = ["time-0_3"] }
dotenvy = "0.15"
hyper = { version = "0.14", features = ["full"] }
jsonwebtoken = "8"
mongodb = "2"
num-bigint = { version = "0.4", features = ["serde"] }
password-hash = "0.5"
rust_decimal = "1"
serde = { version = "1", features = ["derive"] }
serde_json = "1"
tap = "1"
thiserror = "1"
time = { version = "0.3", features = ["serde-well-known"] }
tokio = { version = "1", features = ["full"] }
tower-http = { version = "0.4", features = ["fs", "trace"] }
tracing = "0.1"
tracing-subscriber = { version = "0.3", features = ["env-filter"] }
validator = { version = "0.16", features = ["derive"] }
