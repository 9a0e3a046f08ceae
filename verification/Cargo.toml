[package]
name = "swarm"
version = "0.1.0"
edition = "2021"
publish = false

[dependencies]
libp2p-core = "0.40"
libp2p-identity = { version = "0.2", features = ["peerid", "rand"] }
void = "1"
