[package]
name = "qna-web-app"
version = "0.1.0"
edition = "2021"
publish = false

[dependencies]
rust-argon2 = "1.0"
rand = "0.8"
chrono = "0.4"
jsonwebtoken = "9"
serde_json = "1"
serde = { version = "1", features = ["derive"] }
warp = { version = "0.3", default-features = false }
sqlx = { version = "0.8", default-features = false, features = ["postgres", "runtime-tokio"] }
reqwest = { version = "0.11", default-features = false }
reqwest-middleware = "0.2"
tracing = "0.1"
