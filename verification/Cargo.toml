[package]
name = "krot_server"
version = "0.1.0"
edition = "2021"
publish = false

[dependencies]
base32 = "0.5"
base64 = "0.22"
blake3 = { version = "1", default-features = false, features = ["std", "pure"] }
clap = { version = "4", features = ["derive"] }
instant-acme = { version = "0.8", default-features = false, features = ["hyper-rustls", "ring"] }
parking_lot = "0.12"
quinn = { version = "0.11", default-features = false, features = ["runtime-tokio", "rustls-ring"] }
rand = "0.8"
rcgen = "0.13"
rustls = { version = "0.23", default-features = false, features = ["std", "ring", "tls12", "logging"] }
serde_json = "1"
time = "0.3"
tokio = { version = "1", features = ["full"] }
tracing = "0.1"
tracing-subscriber = { version = "0.3", features = ["env-filter", "json"] }
x509-parser = "0.16"
