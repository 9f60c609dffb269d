[package]
name = "volvo_comm"
version = "0.1.0"
edition = "2021"
publish = false

[dependencies]
multiaddr = "0.18"
libp2p = { version = "0.53", default-features = false, features = ["gossipsub", "tcp", "noise", "yamux", "macros", "async-std"] }
async-std = { version = "1", features = ["attributes"] }
futures = "0.3"
local-ip-address = "0.6"
serde = { version = "1", features = ["derive"] }
serde_json = "1"
