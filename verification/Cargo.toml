[package]
name = "tastytrade"
version = "0.1.0"
edition = "2021"
publish = false

[dependencies]
serde_json = "*"
flume = "*"
widestring = "*"
url = "*"
futures-util = "*"
tokio = { version = "*", features = ["rt-multi-thread", "macros", "time"] }
tokio-tungstenite = "*"
dxfeed = "*"
