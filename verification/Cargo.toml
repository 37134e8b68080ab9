[package]
name = "p2p_core"
version = "0.1.0"
edition = "2021"
publish = false

[dependencies]
tokio = { version = "=1.54.1", default-features = false, features = ["sync", "rt", "time", "macros"] }
tokio-stream = { version = "=0.1.19", default-features = false, features = ["sync"] }
futures = "=0.3.34"
log = "=0.4.34"
thiserror = "=1.0.69"
chrono = "=0.4.45"
tari_crypto = "=0.24.1"
multiaddr = "=0.19.1"
