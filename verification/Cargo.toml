[package]
name = "greptimedb_client"
version = "0.1.0"
edition = "2021"
publish = false

[dependencies]
greptime-proto = "=0.1.0"
parking_lot = "=0.12.5"
rand = "=0.8.8"
snafu = "=0.7.5"
tokio = { version = "=1.54.1", features = ["rt-multi-thread", "macros", "sync", "time"] }
tokio-stream = "=0.1.19"
tonic = { version = "=0.14.6", features = ["gzip", "zstd", "tls-ring"] }
