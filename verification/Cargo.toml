[package]
name = "c8y_mapper_ext"
version = "0.1.0"
edition = "2021"
publish = false

[dependencies]
anyhow = "1"
async-compat = "0.2"
async-tungstenite = { version = "0.28", features = ["tokio-runtime", "tokio-rustls-native-certs"] }
base64 = "0.22"
camino = "1"
futures = "0.3"
futures-util = { version = "0.3", features = ["io"] }
http = "1"
miette = "7"
rand = "0.8"
rustls = { version = "0.23", default-features = false, features = ["std", "ring"] }
serde = { version = "1", features = ["derive"] }
serde_json = "1"
thiserror = "1"
time = "0.3"
tokio = { version = "1", features = ["rt", "net", "io-util", "time"] }
tracing = "0.1"
url = "2"
ws_stream_tungstenite = "0.14"
