[package]
name = "gift_buyer"
version = "0.1.0"
edition = "2021"
publish = false

[dependencies]
anyhow = "=1.0.104"
clap = { version = "=4.6.7", features = ["derive"] }
dialoguer = "=0.12.0"
dotenvy = "=0.15.7"
envy = "=0.4.2"
futures = "=0.3.34"
grammers-client = "=0.10.0"
serde = { version = "=1.0.229", features = ["derive"] }
sqlx = { version = "=0.9.0", features = ["sqlite", "runtime-tokio"] }
takecell = "=0.1.1"
teloxide = "=0.17.0"
thiserror = "=2.0.21"
tokio = { version = "=1.54.1", features = ["full"] }
tracing = "=0.1.44"
tracing-appender = "=0.2.5"
tracing-subscriber = { version = "=0.3.23", features = ["env-filter"] }
