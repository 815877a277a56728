[package]
name = "newsletter_core"
version = "0.1.0"
edition = "2021"
publish = false

[dependencies]
jsonwebtoken = { version = "=11.1.0", features = ["rust_crypto"] }
uuid = "=1.27.0"
serde_json = "=1.0.151"
serde = { version = "=1.0.229", features = ["derive"] }
chrono = "=0.4.45"
reqwest = { version = "=0.12.28", default-features = false, features = ["json", "rustls-tls"] }
tokio = { version = "=1.53.2", features = ["rt-multi-thread", "macros", "time"] }
lettre = { version = "=0.11.23", default-features = false, features = ["smtp-transport", "builder", "tokio1", "tokio1-rustls-tls"] }
dotenvy = "=0.15.7"
