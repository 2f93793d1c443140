[package]
name = "tauri_chat"
version = "0.1.0"
edition = "2021"
publish = false

[dependencies]
base64 = "=0.21.7"
rsa = "=0.9.10"
rand = "=0.8.5"
serde = { version = "1", features = ["derive"] }
serde_json = "1"
log = "0.4"
tokio = { version = "1", features = ["full"] }
reqwest = { version = "0.11", features = ["json"] }
tokio-tungstenite = "0.20"
futures-util = "0.3"
url = "2"
rbatis = "4"
rbdc-sqlite = "4"
dotenv = "0.15"
fast_log = "1"

[dev-dependencies]
prost = "=0.12.6"
