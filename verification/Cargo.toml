[package]
name = "headlines"
version = "0.1.0"
edition = "2021"
publish = false

[dependencies]
newsapi = "=0.4.0"
serde = { version = "=1.0.229", features = ["derive"] }
serde_json = "*"
tracing = "=0.1.44"
tracing-subscriber = { version = "=0.3.23", default-features = false, features = ["fmt", "ansi"] }
