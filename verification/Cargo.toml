[package]
name = "nws_forecast_summarizer"
version = "0.1.0"
edition = "2021"
publish = false

[dependencies]
serde = { version = "1", features = ["derive"] }
serde_json = "1"
urlencoding = "2"
axum = "*"
tokio = { version = "1", features = ["macros", "rt-multi-thread", "net"] }
reqwest = { version = "*", default-features = false, features = ["json"] }
ollama-rs = "*"
prometheus = "*"
lazy_static = "1"
tracing = "0.1"
