[package]
name = "indexer"
version = "0.1.0"
edition = "2021"
publish = false

[dependencies]
actix-rt = "=2.15.0"
cosmos-sdk-proto-althea = "=0.22.0"
deep_space = "=2.33.1"
futures = "=0.3.34"
lazy_static = "=1.5.1"
log = "=0.4.34"
prost-types = "=0.13.5"
rocksdb = "=0.25.0"
serde = { version = "=1.0.229", features = ["derive"] }
serde_json = "=1.0.154"
sha256 = "=1.6.0"
tokio = { version = "=1.54.1", features = ["time"] }
