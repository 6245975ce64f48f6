[package]
name = "telegram_task_bot"
version = "0.1.0"
edition = "2021"
publish = false

[dependencies]
chrono = "*"
chrono-tz = "*"
strsim = "*"
regex = "*"
uuid = { version = "*", features = ["v7"] }
cron = "*"
serde = { version = "*", features = ["derive"] }
serde_json = "*"
tokio = { version = "*", features = ["rt-multi-thread", "macros", "sync", "time"] }
async-trait = "*"
thiserror = "*"
tracing = "*"
dotenvy = "*"
secrecy = "*"
