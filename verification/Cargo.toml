[package]
name = "kobo"
version = "0.1.0"
edition = "2021"
publish = false

[dependencies]
unicode-segmentation = "1"
validator = "0.16"
rand = "0.8"
base64 = "0.13"
argon2 = { version = "0.4", features = ["std"] }
uuid = { version = "1", features = ["v4"] }
actix-web = { version = "4", default-features = false, features = ["macros"] }
sqlx = { version = "0.6", default-features = false, features = ["runtime-actix-rustls", "postgres", "uuid", "chrono"] }
reqwest = { version = "0.11", default-features = false, features = ["json", "rustls-tls"] }
tokio = { version = "1", features = ["macros", "rt-multi-thread"] }
config = { version = "0.13", default-features = false, features = ["yaml"] }
serde = { version = "1", features = ["derive"] }
secrecy = { version = "0.8", features = ["serde"] }
anyhow = "1"
thiserror = "1"
tracing = { version = "0.1", features = ["log"] }
tracing-actix-web = "0.7"

[dev-dependencies]
fake = "2"
linkify = "*"
