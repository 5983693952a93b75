[package]
name = "ort_genai"
version = "0.1.0"
edition = "2021"
publish = false

[dependencies]
serde = { version = "=1.0.229", features = ["derive"] }
serde_json = "=1.0.154"
thiserror = "=2.0.21"
tokio = { version = "=1.54.1", features = ["rt-multi-thread", "sync", "fs", "macros"] }
tokio-stream = "=0.1.19"
half = "=2.7.1"
num-complex = "=0.4.6"
foundry-local-sdk = "=2.3.1"
windows = { version = "*", features = ["Foundation", "Web_Http", "Web_Http_Headers"] }
windows-reactor = "*"
