[package]
name = "realworld-balance"
version = "0.1.0"
edition = "2021"
publish = false

[dependencies]
uuid = { version = "1", features = ["serde"] }
serde = { version = "1", features = ["derive"] }
serde_json = "1"
anyhow = "1"
async-trait = "0.1"
flume = "0.11"
tokio = { version = "1", features = ["macros", "rt-multi-thread"] }
sqlx = { version = "0.8", default-features = false, features = ["postgres", "runtime-tokio"] }
rdkafka = "0.36"
dotenv = "0.15"
strum_macros = "0.26"
