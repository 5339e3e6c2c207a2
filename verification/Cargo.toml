[package]
name = "jade_signer"
version = "0.1.0"
edition = "2021"
publish = false

[dependencies]
serde = { version = "=1.0.229", features = ["derive"] }
serde_json = "=1.0.154"
jsonrpc-core = "=18.0.0"
jsonrpc-http-server = "=18.0.0"
rocksdb = "=0.12.4"
failure = "=0.1.8"
log = "=0.4.34"
scrypt = "=0.12.0"
sha3 = "=0.12.0"
aes = "=0.9.3"
ctr = "=0.10.1"
rand = "=0.10.3"
k256 = "=0.13.4"
alloy-dyn-abi = { version = "*", features = ["eip712"] }
