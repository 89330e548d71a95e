[package]
name = "backend"
version = "0.1.0"
edition = "2021"
publish = false

[dependencies]
aes-gcm = "=0.10.3"
bcrypt = "=0.15.1"
chrono = "=0.4.45"
jsonwebtoken = "=9.3.1"
tera = "=1.20.1"
serde = { version = "=1.0.229", features = ["derive"] }
serde_json = "=1.0.154"
uuid = { version = "=1.29.0", features = ["v4", "serde"] }
reqwest = { version = "=0.12.28", default-features = false, features = ["json"] }
axum = { version = "=0.8.9", features = ["ws"] }
thiserror = "=2.0.21"
tokio = { version = "=1.54.1", features = ["sync", "macros", "rt-multi-thread"] }
