[package]
name = "pepper_common"
version = "0.1.0"
edition = "2021"
publish = false

[dependencies]
aes-gcm = "=0.10.3"
anyhow = "=1.0.104"
ark-bls12-381 = "=0.4.0"
ark-ec = "=0.4.2"
ark-ff = "=0.4.2"
ark-serialize = "=0.4.2"
ark-std = { version = "=0.4.0", features = ["getrandom"] }
bcs = "=0.1.6"
curve25519-dalek = "=3.2.1"
digest = "=0.9.0"
num-traits = "=0.2.19"
rand = "=0.7.3"
rand_core = { version = "=0.5.1", features = ["getrandom"] }
serde = { version = "=1.0.229", features = ["derive"] }
serde-reflection = "=0.3.6"
sha2 = "=0.10.9"
sha3 = "=0.9.1"
tokio = { version = "=1.54.1", features = ["time"] }
