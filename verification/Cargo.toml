[package]
name = "safe_data"
version = "0.1.0"
edition = "2021"
publish = false

[dependencies]
ed25519-dalek = "2"
rust_sodium = "*"
tiny-keccak = { version = "2", features = ["sha3"] }
maidsafe_utilities = "*"

[dev-dependencies]
rand = "*"
