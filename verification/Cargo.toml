[package]
name = "sovereign_node"
version = "0.1.0"
edition = "2021"
publish = false

[dependencies]
anyhow = "=1.0.104"
bdk = { version = "=0.30.2", default-features = false, features = ["std", "electrum"] }
env_logger = { version = "=0.11.11", default-features = false }
futures = "=0.3.34"
libp2p = { version = "=0.53.2", features = ["tokio", "gossipsub", "kad", "mdns", "noise", "tcp", "yamux", "ping", "macros", "pnet"] }
log = "=0.4.34"
machine-uid = "=0.6.0"
serde = { version = "=1.0.229", features = ["derive"] }
serde_json = "=1.0.154"
sha2 = "=0.10.9"
tokio = { version = "=1.54.1", features = ["sync", "rt-multi-thread", "macros", "net", "io-util"] }
wasmtime = { version = "=45.0.3", default-features = false, features = ["runtime"] }
