[package]
name = "sympho"
version = "0.1.0"
edition = "2021"
publish = false

[dependencies]
anyhow = "1"
humantime = "2"
once_cell = "1"
rand = "0.8"
serde_json = "1"
serenity = "0.10"
songbird = "0.2"
tokio = { version = "1", features = ["macros", "rt-multi-thread"] }
tracing-subscriber = "0.2"
url = "2"
wait-timeout = "0.2"
youtube_dl = "0.7"
