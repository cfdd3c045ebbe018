[package]
name = "boorubot"
version = "0.1.0"
edition = "2021"
publish = false

[dependencies]
serenity = "=0.11.7"
booru-rs = "=0.2.8"
tokio = { version = "=1.54.1", features = ["macros", "rt-multi-thread"] }
dotenv = "=0.15.0"
toml = "=0.8.23"
serde = { version = "=1.0.229", features = ["derive"] }
lazy_static = "=1.5.1"
