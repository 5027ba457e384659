[package]
name = "strims_chat"
version = "0.1.0"
edition = "2021"
publish = false

[dependencies]
reqwest = { version = "0.11", features = ["blocking"] }
serde_json = "1.0"
tungstenite = { version = "0.19", features = ["native-tls"] }
