[package]
name = "doca_bot"
version = "0.1.0"
edition = "2021"
publish = false

[dependencies]
actix-rt = "=2.15.0"
actix-web = "=4.18.1"
async-trait = "=0.1.92"
grammers-client = "=0.7.0"
grammers-mtsender = "=0.7.0"
grammers-session = "=0.7.0"
grammers-tl-types = "=0.7.0"
log = "=0.4.34"
reqwest = { version = "=0.12.28", default-features = false, features = ["rustls-tls"] }
serde = { version = "=1.0.229", features = ["derive"] }
serde_json = "=1.0.154"
simple_logger = "=5.2.0"
tokio = { version = "=1.54.1", features = ["rt-multi-thread", "sync", "time", "macros"] }
