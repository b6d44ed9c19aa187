[package]
name = "starkstream_dna"
version = "0.1.0"
edition = "2021"
publish = false

[dependencies]
clap = { version = "=4.6.7", features = ["derive", "env"] }
crc32fast = "=1.5.4"
ctrlc = "=3.5.2"
futures = "=0.3.34"
hex = "=0.4.3"
mimalloc = "=0.1.52"
opentelemetry = { version = "=0.31.0", default-features = false, features = ["metrics", "trace"] }
reqwest = { version = "=0.13.5", default-features = false }
rustls = "=0.23.46"
serde = { version = "=1.0.229", features = ["derive"] }
serde_json = "=1.0.154"
starknet-rust-core = { version = "=0.20.1", default-features = false, features = ["std"] }
testcontainers = { version = "=0.28.0", default-features = false }
time = { version = "=0.3.55", features = ["formatting"] }
tokio = { version = "=1.54.1", features = ["macros", "net", "rt-multi-thread", "sync", "time"] }
tokio-tungstenite = "=0.30.0"
tokio-util = "=0.7.20"
tonic = "=0.14.9"
tracing = "=0.1.44"
tracing-opentelemetry = { version = "=0.32.1", default-features = false }
tracing-subscriber = { version = "=0.3.23", features = ["env-filter", "json"] }
zstd = "=0.14.3"
