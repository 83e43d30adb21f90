[package]
name = "azure-eventhub-vector-pipeline"
version = "0.1.0"
edition = "2021"
publish = false

[dependencies]
anyhow = "=1.0.104"
azeventhubs = "=0.20.0"
azure_identity = "=0.20.0"
azure_storage = "=0.20.0"
azure_storage_blobs = "=0.20.0"
backoff = { version = "=0.4.0", features = ["tokio"] }
clap = { version = "=4.6.7", features = ["derive"] }
futures = "=0.3.34"
parking_lot = "=0.12.5"
serde = { version = "=1.0.229", features = ["derive"] }
serde_json = "=1.0.154"
tokio = { version = "=1.54.1", features = ["full"] }
tokio-util = "=0.7.10"
toml = "=0.8.23"
tracing = "=0.1.44"
tracing-subscriber = { version = "=0.3.23", features = ["env-filter"] }
