[package]
name = "poem_article"
version = "0.1.0"
edition = "2021"
publish = false

[dependencies]
anyhow = "*"
async-trait = "*"
dotenvy = "*"
poem = { version = "*", features = ["tokio-metrics"] }
sea-orm = { version = "*", features = ["runtime-tokio", "sqlx-sqlite"] }
serde = { version = "*", features = ["derive"] }
tera = "*"
tokio = { version = "*", features = ["rt-multi-thread", "macros"] }
tracing-subscriber = "*"
