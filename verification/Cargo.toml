[package]
name = "tews_circuit"
version = "0.1.0"
edition = "2021"
publish = false

[dependencies]
async-recursion = "1"
chrono = "0.4"
poise = "0.5"
sqlx = { version = "0.6", features = ["runtime-tokio-rustls", "sqlite"] }
tokio = { version = "1", features = ["macros", "rt-multi-thread", "time"] }
tracing = "0.1"
tracing-subscriber = { version = "0.3", features = ["env-filter"] }
