[package]
name = "key_value"
version = "0.1.0"
edition = "2021"
publish = false

[dependencies]
rusqlite = "0.27"
tokio = { version = "1", features = ["rt-multi-thread"] }
tonic = "0.8"
prost = "0.11"
bytes = "1"
async-std = "1"
anyhow = "1"
tracing = "0.1"
