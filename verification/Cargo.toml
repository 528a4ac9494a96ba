[package]
name = "goeie"
version = "0.1.0"
edition = "2021"
publish = false

[dependencies]
acme-micro = "=0.14.0"
axum = "=0.8.9"
axum-server = { version = "=0.8.0", features = ["tls-rustls"] }
hickory-client = "=0.25.2"
openssl = "=0.10.81"
serde = { version = "=1.0.229", features = ["derive"] }
tokio = { version = "=1.53.2", features = ["full"] }
toml = "=1.1.6"
tower-http = { version = "=0.7.1", features = ["cors", "trace"] }
tracing = "=0.1.44"
tracing-subscriber = "=0.3.23"
