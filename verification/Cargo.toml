[package]
name = "muuuxy"
version = "0.1.0"
edition = "2021"
publish = false

[dependencies]
axum = "0.8"
http = "1"
m3u8-rs = "6"
percent-encoding = "2"
rand = "0.9"
reqwest = { version = "0.12", default-features = false, features = ["rustls-tls"] }
serde = { version = "1", features = ["derive"] }
tokio = { version = "1", features = ["macros", "net", "rt-multi-thread"] }
tower = "0.5"
tower-http = { version = "0.6", features = ["compression-gzip", "cors", "propagate-header", "trace"] }
tracing = "0.1"
tracing-subscriber = { version = "0.3", features = ["env-filter"] }
url = "2"
