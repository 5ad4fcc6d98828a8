[package]
name = "climate_bot"
version = "0.1.0"
edition = "2021"
publish = false

[dependencies]
cached = { version = "*", features = ["async"] }
chrono = "0.4"
chrono-tz = "*"
codes-iso-639 = "*"
env_logger = "*"
fluent-templates = "*"
lazy_static = "1"
log = "0.4"
poise = "0.6"
reqwest = { version = "0.11", default-features = false, features = ["rustls-tls"] }
serde = { version = "1", features = ["derive"] }
serde_json = "1"
thiserror = "1"
tokio = { version = "1", features = ["macros", "rt-multi-thread"] }
tzf-rs = { version = "*", default-features = false }
url = "2"
