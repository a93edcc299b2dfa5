[package]
name = "secp_attestation"
version = "0.1.0"
edition = "2021"
publish = false

[dependencies]
borsh = "=0.10.4"
bs58 = "=0.4.0"
clap = "=2.34.0"
hex = "=0.4.3"
libsecp256k1 = "=0.6.0"
num-derive = "=0.4.2"
num-traits = "=0.2.19"
solana-clap-utils = "=1.18.26"
solana-cli-config = "=1.18.26"
solana-logger = "=1.18.26"
solana-program = "=1.18.26"
solana-sdk = "=1.18.26"
spl-token = "=4.0.3"
thiserror = "=1.0.69"
