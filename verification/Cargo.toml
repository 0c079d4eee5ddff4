[package]
name = "tempusbot"
version = "0.1.0"
edition = "2021"
publish = false

[dependencies]
anyhow = "1"
dotenv = "0.15"
hhmmss = "0.1"
magick_rust = "1"
poise = "0.6"
rand = "0.9"
reqwest = { version = "0.12", default-features = false, features = ["rustls-tls"] }
serde = "1"
serde_derive = "1"
serde_json = "1"
serenity = "0.12"
sqlx = { version = "0.8", default-features = false, features = ["sqlite", "runtime-tokio"] }
tokio = { version = "1", features = ["macros", "rt-multi-thread", "signal", "fs", "sync"] }
tracing = "0.1"
tracing-subscriber = "0.3"
