[package]
name = "chain_ingest"
version = "0.1.0"
edition = "2021"
publish = false

[dependencies]
serde_json = "1"
serde = { version = "1", features = ["derive"] }
reqwest = { version = "0.11", default-features = false, features = ["json"] }
tokio = { version = "1", features = ["macros", "rt-multi-thread"] }
futures-util = "0.3"
clap = "4"
log = "0.4"
fern = { version = "0.6", features = ["colored"] }
humantime = "2"
bitcoincore-zmq = { version = "1", features = ["async"] }
