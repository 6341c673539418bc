[package]
name = "hpcac"
version = "0.1.0"
edition = "2021"
publish = false

[dependencies]
serde_json = "=1.0.154"
serde = { version = "=1.0.229", features = ["derive"] }
anyhow = "=1.0.104"
tokio = { version = "=1.54.1", features = ["full"] }
tracing = "=0.1.44"
tracing-subscriber = "=0.3.23"
chrono = { version = "=0.4.45", default-features = false, features = ["clock"] }
clap = { version = "=4.6.7", features = ["derive"] }
dotenvy = "=0.15.7"
indicatif = "=0.17.11"
inquire = "=0.7.5"
rand = "=0.9.5"
reqwest = { version = "=0.12.28", default-features = false, features = ["json"] }
