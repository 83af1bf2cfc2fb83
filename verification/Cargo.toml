[package]
name = "piuda_twitch"
version = "0.1.0"
edition = "2021"
publish = false

[dependencies]
shlex = "=2.0.1"
parking_lot = "=0.13.0"
twitchchat = { version = "=0.14.8", features = ["async", "tokio", "tokio-util"] }
tokio = { version = "0.2", features = ["rt-core"] }
serde = { version = "=1.0.229", features = ["derive"] }
serde_json = "=1.0.154"
chrono = { version = "=0.4.45", features = ["serde"] }
xdg-basedir = "=1.0.0"
