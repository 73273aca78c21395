[package]
name = "auth_service"
version = "0.1.0"
edition = "2021"
publish = false

[dependencies]
actix-web = { version = "4", default-features = false, features = ["macros", "cookies"] }
anyhow = "1"
chrono = { version = "0.4", features = ["serde"] }
dotenvy = "0.15"
lettre = { version = "0.10", default-features = false, features = ["builder", "smtp-transport", "tokio1", "tokio1-rustls-tls"] }
log = "0.4"
mongodb = "2"
regex = "1"
serde = { version = "1", features = ["derive"] }
serde_json = "1"
uuid = { version = "1", features = ["serde", "v4"] }
validator = "0.16"
