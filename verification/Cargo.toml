[package]
name = "voxly"
version = "0.1.0"
edition = "2021"
publish = false

[dependencies]
anyhow = "1"
async-trait = "0.1"
cpal = "0.15"
futures-util = "0.3"
reqwest = { version = "0.12", default-features = false, features = ["stream", "rustls-tls"] }
rubato = "0.15"
serde = { version = "1", features = ["derive"] }
thiserror = "2"
tokio = { version = "1", features = ["sync", "time", "rt", "macros", "fs", "io-util"] }
tracing = "0.1"
wavekat-vad = "*"
