[package]
name = "dune_manager"
version = "0.1.0"
edition = "2021"
publish = false

[dependencies]
serde = { version = "1", features = ["derive"] }
serde_json = "1"
chrono = "0.4"
tokio = { version = "1", features = ["sync", "rt", "rt-multi-thread", "macros", "time"] }
anyhow = "1"
async-trait = "0.1"
tracing = "0.1"
postgres = "0.19"
