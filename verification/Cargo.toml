[package]
name = "quantum_custody"
version = "0.1.0"
edition = "2021"
publish = false

[dependencies]
anchor-lang = "*"
anchor-spl = "*"
pqcrypto-dilithium = "*"
pqcrypto-kyber = "*"
pqcrypto-traits = "*"
serde = { version = "1", features = ["derive"] }
serde_json = "1"
solana-sdk = "*"
thiserror = "1"
zeroize = { version = "1", features = ["zeroize_derive"] }
