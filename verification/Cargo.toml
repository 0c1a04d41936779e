[package]
name = "wamp_async"
version = "0.1.0"
edition = "2021"
publish = false

[dependencies]
async-trait = "0.1"
futures = "0.3"
log = "0.4"
native-tls = "0.2"
tokio = { version = "1", features = ["net", "rt", "sync", "time"] }
tokio-native-tls = "0.3"
tokio-tungstenite = { version = "*", features = ["native-tls"] }
url = "2"
