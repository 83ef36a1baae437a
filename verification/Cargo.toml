[package]
name = "xrl"
version = "0.1.0"
edition = "2021"
publish = false

[dependencies]
async-trait = "0.1"
bytes = "1"
futures = "0.3"
indexmap = "2"
log = "0.4"
serde = { version = "1", features = ["derive"] }
serde_json = "1"
syntect = { version = "*", default-features = false }
tokio = { version = "1", features = ["io-util", "macros", "process", "rt", "sync", "time"] }
tokio-util = { version = "0.7", features = ["codec"] }
xi-core-lib = "*"
xi-rpc = "*"
