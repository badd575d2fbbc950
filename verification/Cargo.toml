[package]
name = "sbom_indexer"
version = "0.1.0"
edition = "2021"
publish = false

[dependencies]
anyhow = "*"
clap = { version = "*", features = ["derive"] }
serde = { version = "*", features = ["derive"] }
serde_json = "*"
time = { version = "*", features = ["serde"] }
tokio = { version = "*", features = ["rt", "sync", "time", "macros"] }
utoipa = { version = "*", features = ["time"] }
