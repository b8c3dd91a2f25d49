[package]
name = "antibot-rs"
version = "0.3.4"
edition = "2021"
publish = false

[dependencies]
dashmap = "6"
futures = "0.3"
http = "1"
psl = "2"
reqwest = { version = "0.12", default-features = false, features = ["json", "rustls-tls"] }
serde = { version = "1", features = ["derive"] }
serde_json = "1"
thiserror = "2"
tokio = { version = "1", features = ["fs", "macros", "process", "rt-multi-thread", "sync", "time"] }
tracing = "0.1"
url = "2"
