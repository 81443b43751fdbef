[package]
name = "zkp_utils"
version = "0.1.0"
edition = "2021"
publish = false

[dependencies]
winter-math = "=0.4.2"
winter-crypto = "=0.4.2"
winter-air = "=0.4.2"
winter-prover = "=0.4.2"
winter-verifier = "=0.4.2"
winter-utils = "=0.4.2"
sha2 = "=0.10.9"
sha3 = "=0.10.9"
hex = "=0.4.3"
k256 = { version = "=0.11.6", features = ["ecdsa"] }
anyhow = "=1.0.104"
serde = { version = "=1.0.229", features = ["derive"] }
rkyv = "=0.7.46"
log = "=0.4.35"
env_logger = "=0.10.2"
clap = { version = "=4.6.7", features = ["derive"] }
risc0-zkvm-guest = "=0.11.1"
risc0-zkvm = "=0.11.1"
rand_core = { version = "=0.6.4", features = ["getrandom"] }
