[package]
name = "zwallet"
version = "0.1.0"
edition = "2021"
publish = false

[dependencies]
uuid = "=1.29.0"
zcash_protocol = "=0.11.0"
zcash_address = "=0.14.0"
zip321 = "=0.10.0"
bip0039 = "=0.12.0"
age = "=0.11.5"
chrono = "=0.4.45"
secrecy = "=0.8.0"
anyhow = "=1.0.104"
libc = "=0.2.191"
rand = "=0.10.3"
tokio = { version = "=1.54.1", features = ["rt-multi-thread", "fs", "io-util"] }
rust_decimal = "=1.43.0"
zcash_keys = { version = "=0.17.0", features = ["transparent-inputs", "orchard", "sapling"] }
zcash_client_backend = { version = "=0.25.0", features = ["transparent-inputs", "orchard", "lightwalletd-tonic"] }
zcash_client_sqlite = { version = "=0.23.0", features = ["transparent-inputs", "orchard"] }
zcash_proofs = { version = "=0.31.0", features = ["bundled-prover"] }
tonic = "=0.14.9"
