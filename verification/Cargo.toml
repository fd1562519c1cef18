[package]
name = "collector"
version = "0.1.0"
edition = "2021"
publish = false

[dependencies]
anyhow = "1"
async-trait = "0.1"
chrono = "0.4"
clickhouse = { version = "*", features = ["uuid", "chrono", "time"] }
dashmap = "*"
once_cell = "1"
reqwest = { version = "*", default-features = false }
scraper = "*"
serde = { version = "1", features = ["derive"] }
serde_with = "*"
time = "0.3"
tokio = { version = "1", features = ["full"] }
tokio-stream = { version = "*", features = ["time"] }
tracing = "0.1"
tracing-subscriber = "0.3"
uuid = { version = "1", features = ["v7"] }
