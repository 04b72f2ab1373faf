[package]
name = "b2_client"
version = "0.1.0"
edition = "2021"
publish = false

[dependencies]
arrayvec = "=0.7.8"
base64 = "=0.22.1"
bytes = "=1.12.1"
failsafe = "=1.3.0"
futures-util = "=0.3.34"
headers = "=0.4.2"
hex = "=0.4.3"
md-5 = "=0.10.6"
parking_lot = "=0.12.5"
reqwest = { version = "=0.12.28", default-features = false, features = ["json", "rustls-tls", "stream"] }
serde = { version = "=1.0.229", features = ["derive"] }
serde_json = "=1.0.154"
sha1 = "=0.10.7"
smol_str = { version = "=0.2.2", features = ["serde"] }
thiserror = "=1.0.69"
tokio = { version = "=1.54.1", features = ["fs", "io-util", "macros", "rt-multi-thread", "sync", "time"] }
typed-builder = "=0.18.2"
