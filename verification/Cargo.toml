[package]
name = "aicap_handshake"
version = "0.1.0"
edition = "2021"
publish = false

[dependencies]
rand = "0.8"
regex = "1"
serde_json = "1"
urlencoding = "2"
reqwest = { version = "0.12", features = ["json"] }
