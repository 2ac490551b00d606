[package]
name = "beppo_fit_backend"
version = "0.1.0"
edition = "2021"
publish = false

[dependencies]
argon2 = { version = "=0.5.3", features = ["std"] }
jsonwebtoken = { version = "=11.1.0", features = ["rust_crypto"] }
serde = { version = "=1.0.229", features = ["derive"] }
serde_json = "=1.0.151"
uuid = { version = "=1.27.0", features = ["v4"] }
validator = "=0.21.0"
chrono = "=0.4.45"
dotenvy = "=0.15.7"
lettre = { version = "=0.11.23", default-features = false, features = ["smtp-transport", "builder"] }
tracing = "=0.1.44"
tracing-subscriber = "=0.3.23"
