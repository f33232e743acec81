[package]
name = "binance_orderbook"
version = "0.1.0"
edition = "2021"
publish = false

[dependencies]
colored = "*"
env_logger = "*"
futures = "0.3"
serde = { version = "1", features = ["derive"] }
serde_json = "1"
tokio = { version = "1", features = ["macros", "rt-multi-thread", "io-util", "io-std", "sync", "time"] }
tokio-tungstenite = { version = "*", features = ["native-tls"] }

[dev-dependencies]
ordered-float = "*"
