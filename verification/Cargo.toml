[package]
name = "shortener"
version = "0.1.0"
edition = "2021"
publish = false

[dependencies]
axum = "0.7"
bb8 = "*"
bb8-redis = "*"
dotenvy = "0.15"
rand = "0.9"
tokio = { version = "1", features = ["macros", "net", "rt-multi-thread"] }
tracing = "0.1"
tracing-subscriber = { version = "0.3", features = ["env-filter"] }
