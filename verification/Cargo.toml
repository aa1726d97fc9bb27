[package]
name = "cdr_runtime_core"
version = "0.1.0"
edition = "2021"
publish = false

[dependencies]
sha2 = "0.10"
hex = "0.4"
serde_json = "1"
tokio = { version = "1", features = ["sync", "time", "macros", "rt", "rt-multi-thread", "signal"] }
tempfile = "3"
uuid = { version = "1", features = ["v4"] }
thiserror = "2"
