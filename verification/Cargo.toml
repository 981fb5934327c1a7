[package]
name = "manual_futures"
version = "0.1.0"
edition = "2021"
publish = false

[dependencies]
anyhow = "1"
axum = { version = "*", default-features = false, features = ["http1", "tokio"] }
futures = "0.3"
mio = { version = "*", features = ["net", "os-poll"] }
tokio = { version = "1", features = ["io-util", "net", "rt-multi-thread", "time"] }
