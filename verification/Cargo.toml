[package]
name = "cronos"
version = "0.1.0"
edition = "2021"
publish = false

[dependencies]
tantivy = "0.19"
unicode-segmentation = "1"
anyhow = "1"
tokio = { version = "1", features = ["full"] }
flume = "0.10"
parking_lot = "0.12"
arc-swap = "1"
rayon = "1"
clap = { version = "3", features = ["derive", "env"] }
tracing = "0.1"
tracing-subscriber = "0.3"
futures = "0.3"
serde = { version = "1", features = ["derive"] }
serde_json = "1"
poem = "1"
scylla = "0.8"
reqwest = { version = "0.11", default-features = false, features = ["json"] }
