[package]
name = "channels"
version = "0.1.0"
edition = "2021"
publish = false

[dependencies]
serde_json = "=1.0.154"
serenity = { version = "=0.12.5", default-features = false, features = ["builder", "http", "model", "rustls_backend"] }
slack-morphism = { version = "=2.18.0", features = ["hyper"] }
tokio = { version = "=1.54.1", features = ["macros", "rt", "sync", "time"] }
tracing = "=0.1.44"
uuid = { version = "=1.29.0", features = ["v4"] }
