[package]
name = "rail_bridge"
version = "0.1.0"
edition = "2021"
publish = false

[dependencies]
serde_json = "1"
tokio = { version = "1", features = ["rt-multi-thread", "macros", "sync", "time"] }
tokio-tungstenite = "*"
futures-util = "0.3"
serialport = { version = "4", default-features = false }
dotenv = "0.15"

[dev-dependencies]
bincode = "1.3"
