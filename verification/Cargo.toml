[package]
name = "playback_queue"
version = "0.1.0"
edition = "2021"
publish = false

[dependencies]
image = { version = "0.25", default-features = false, features = ["png", "jpeg"] }
reqwest = { version = "0.11", default-features = false, features = ["rustls-tls"] }
serenity = { version = "0.12", default-features = false, features = ["builder", "cache", "client", "gateway", "model", "http", "rustls_backend", "voice"] }
songbird = "0.4"
tracing = "0.1"
