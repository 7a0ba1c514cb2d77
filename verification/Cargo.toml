[package]
name = "minidump_analyzer"
version = "0.1.0"
edition = "2021"
publish = false

[dependencies]
minidump = "=0.27.0"
minidump-processor = { version = "=0.27.0", features = ["http"] }
minidump-unwind = { version = "=0.27.0", features = ["http"] }
serde = { version = "=1.0.229", features = ["derive"] }
serde_json = "=1.0.154"
anyhow = "=1.0.104"
clap = { version = "=4.6.7", features = ["derive"] }
tokio = { version = "=1.54.1", features = ["full"] }
reqwest = { version = "=0.12.28", default-features = false, features = ["rustls-tls"] }
rmcp = { version = "=3.8.0", features = ["server", "transport-io", "macros"] }
schemars = "=1.2.3"
tracing-subscriber = { version = "=0.3.23", features = ["env-filter"] }
