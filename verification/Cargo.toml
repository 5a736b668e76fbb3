[package]
name = "cert_reload"
version = "0.1.0"
edition = "2021"
publish = false

[dependencies]
argh = "*"
axum = "*"
axum-server = { version = "*", features = ["tls-rustls"] }
tokio = { version = "*", features = ["full"] }
tower-http = { version = "*", features = ["fs", "trace"] }
tracing-subscriber = { version = "*", features = ["env-filter"] }
