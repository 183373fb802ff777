[package]
name = "takoyaki"
version = "0.1.0"
edition = "2021"
publish = false

[dependencies]
aes-gcm = "=0.10.3"
anyhow = "=1.0.104"
bincode = "=2.0.1"
crystals-dilithium = "=2.0.0"
futures = "=0.3.34"
libp2p = { version = "=0.57.0", default-features = false, features = ["autonat", "dns", "ed25519", "gossipsub", "identify", "kad", "macros", "noise", "pnet", "tcp", "tokio", "upnp", "yamux"] }
log = "=0.4.34"
mlua = { version = "=0.12.2", features = ["lua54", "vendored"] }
pretty_env_logger = "=0.5.0"
rand = "=0.10.3"
tokio = { version = "=1.53.2", features = ["fs", "io-std", "io-util", "macros", "net", "rt-multi-thread", "sync", "time"] }
