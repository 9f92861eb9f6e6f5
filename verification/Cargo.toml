[package]
name = "filecoin_signer"
version = "0.1.0"
edition = "2021"
publish = false

[dependencies]
base64 = "0.13"
blake2b_simd = "1"
bls-signatures = { version = "0.12", default-features = false, features = ["pairing"] }
cid = { version = "0.11", default-features = false }
fvm_ipld_encoding = "0.5"
fvm_shared = "4"
hmac = "0.12"
libsecp256k1 = "0.7"
num-traits = "0.2"
rayon = "1"
serde = { version = "1", features = ["derive"] }
sha2 = "0.10"
tiny-bip39 = "0.8"
zx-bip44 = "0.1"
