[package]
name = "rustylogs"
version = "0.1.0"
edition = "2021"
publish = false

[dependencies]
chatgpt_rs = "1"
chrono = "0.4"
dotenvy = "0.15"
poise = "0.5"
serde = { version = "1", features = ["derive"] }
serenity = "0.11"
sqlx = { version = "0.7", default-features = false, features = ["runtime-tokio", "sqlite", "migrate"] }
tokio = { version = "1", features = ["macros", "rt-multi-thread", "sync"] }
toml = "0.8"
