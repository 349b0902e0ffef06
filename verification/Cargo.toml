[package]
name = "duck_duck_go_ai"
version = "0.1.0"
edition = "2021"
publish = false

[dependencies]
serde_json = "=1.0.151"
serde = { version = "=1.0.229", features = ["derive"] }
reqwest = { version = "=0.12.28", default-features = false, features = ["json", "rustls-tls", "stream"] }
tokio = { version = "=1.53.2", features = ["rt-multi-thread", "sync", "macros"] }
tokio-util = { version = "=0.7.19", features = ["codec", "io"] }
tokio-stream = "=0.1.19"
futures-util = "=0.3.34"
