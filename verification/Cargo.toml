[package]
name = "jogo_da_velha"
version = "0.1.0"
edition = "2021"
publish = false

[dependencies]
libp2p = { version = "=0.57.1", features = ["tokio", "tcp", "noise", "yamux", "gossipsub", "mdns", "macros"] }
tokio = { version = "=1.54.1", features = ["rt-multi-thread", "sync", "macros"] }
futures = "=0.3.34"
serde = { version = "=1.0.229", features = ["derive"] }
serde_json = "=1.0.154"
