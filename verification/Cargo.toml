[package]
name = "open62541"
version = "0.1.0"
edition = "2021"
publish = false

[dependencies]
open62541-sys = "*"
log = "0.4"
thiserror = "*"
tokio = { version = "1", features = ["sync", "rt", "rt-multi-thread"] }
futures-channel = "0.3"
futures-core = "0.3"
