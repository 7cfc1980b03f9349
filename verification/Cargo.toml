[package]
name = "lsps1_client"
version = "0.1.0"
edition = "2021"
publish = false

[dependencies]
cln-plugin = "*"
cln-rpc = "*"
hex = "0.4"
log = "0.4"
serde = { version = "1", features = ["derive"] }
serde_json = "1"
tokio = { version = "1", features = ["io-std", "macros", "rt-multi-thread", "sync"] }
