[package]
name = "ssp"
version = "0.1.0"
edition = "2021"
publish = false

[dependencies]
aes = "=0.8.4"
log = "=0.4.34"
num-bigint = "=0.4.8"
num-traits = "=0.2.19"
rand = "=0.8.8"
rand_chacha = "=0.3.1"
serde = { version = "=1.0.229", features = ["derive"] }
sha2 = "=0.10.9"
zeroize = "=1.9.1"

[dev-dependencies]
serde_json = "1"
