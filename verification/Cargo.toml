[package]
name = "tradebot"
version = "0.1.0"
edition = "2021"
publish = false

[dependencies]
serde_json = { version = "*", features = ["arbitrary_precision"] }
chrono = "*"
url = "*"
serde = { version = "*", features = ["derive"] }
tokio = { version = "*", features = ["rt-multi-thread", "macros", "time", "signal", "sync", "net"] }
tokio-stream = { version = "*", features = ["time", "signal"] }
tokio-tungstenite = "*"
futures-util = "*"
reqwest = { version = "*", default-features = false, features = ["json"] }
lettre = { version = "*", default-features = false, features = ["smtp-transport", "tokio1", "builder"] }
machine-uid = "*"
urlencoding = "*"
chrono-tz = "*"
