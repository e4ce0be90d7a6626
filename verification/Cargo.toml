[package]
name = "axum_crud_lib"
version = "0.1.0"
edition = "2021"
publish = false

[dependencies]
axum = "0.6"
axum-server = { version = "0.5", features = ["tls-openssl"] }
tokio = { version = "1", features = ["full"] }
tokio-postgres = "0.7"
deadpool-postgres = "0.10"
postgres-openssl = "0.5"
openssl = "0.10"
postgres-from-row = "0.5"
serde = { version = "1", features = ["derive"] }
serde_json = "1"
dotenvy = "0.15"
futures = "0.3"
signal-hook = "0.3"
signal-hook-tokio = { version = "0.3", features = ["futures-v0_3"] }
