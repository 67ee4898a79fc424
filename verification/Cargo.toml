[package]
name = "apca"
version = "0.1.0"
edition = "2021"
publish = false

[dependencies]
tokio = { version = "=1.53.2", features = ["net", "rt-multi-thread", "time", "io-util"] }
tokio-tungstenite = "=0.26.2"
tracing = "=0.1.44"
tracing-futures = "=0.2.5"
url = "=2.5.8"
websocket-util = { version = "=0.14.0", features = ["test"] }

[dev-dependencies]
futures = "=0.3.34"
