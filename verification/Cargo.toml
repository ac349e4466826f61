[package]
name = "sip_signaling"
version = "0.1.0"
edition = "2021"
publish = false

[dependencies]
regex = "1"
md5 = "0.7"
rand = "0.8"
chrono = "0.4"
serde_json = "1"
serde = { version = "1", features = ["derive"] }
tokio = { version = "1", features = ["full"] }
tonic = { version = "0.12", features = ["tls"] }
rustls = { version = "0.23", default-features = false, features = ["ring", "std"] }
lapin = "2"
redis = { version = "0.25", features = ["tokio-comp"] }
config = { version = "0.14", default-features = false }
tracing = "0.1"
tracing-subscriber = { version = "0.3", features = ["env-filter", "json"] }
anyhow = "1"
dotenvy = "0.15"
thiserror = "1"
once_cell = "1"
