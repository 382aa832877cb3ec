[package]
name = "questrade_client"
version = "0.2.1"
edition = "2021"
publish = false

[dependencies]
rand = "=0.8.8"
reqwest = { version = "=0.12.28", default-features = false, features = ["json", "rustls-tls"] }
serde = { version = "=1.0.229", features = ["derive"] }
serde_json = "=1.0.154"
thiserror = "=2.0.21"
time = { version = "=0.3.55", features = ["formatting", "parsing"] }
tokio = { version = "=1.54.1", features = ["sync", "time"] }
tracing = "=0.1.44"
