[package]
name = "zk_chat"
version = "0.1.0"
edition = "2021"
publish = false

[dependencies]
winterfell = "=0.10.3"
rand = "=0.8.8"
sha2 = "0.10"
once_cell = "=1.21.4"
hex = "=0.4.3"
base64 = "=0.21.7"
chrono = "=0.4.45"
serde = { version = "=1.0.229", features = ["derive"] }
serde_json = "=1.0.151"
thiserror = "=1.0.69"
tokio = { version = "=1.53.2", features = ["full"] }
tokio-tungstenite = "=0.21.0"
tungstenite = "=0.21.0"
futures-util = "=0.3.34"
warp = "=0.3.7"
tracing = "=0.1.44"
tracing-subscriber = "=0.3.23"
