[package]
name = "judge"
version = "0.1.0"
edition = "2021"
publish = false

[dependencies]
actix-files = "0.6"
actix-web = "4"
anyhow = "1"
chrono = "0.4"
env_logger = "0.11"
serde = { version = "1", features = ["derive"] }
sqlx = { version = "0.8", default-features = false, features = ["runtime-tokio", "sqlite", "derive"] }
tokio = { version = "1", features = ["fs", "process", "time", "macros", "rt-multi-thread"] }
