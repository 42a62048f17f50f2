[package]
name = "switchboard_solana"
version = "0.1.0"
edition = "2021"
publish = false

[dependencies]
anchor-lang = "=0.28.0"
anchor-spl = { version = "=0.28.0", default-features = false, features = ["token"] }
bincode = "=1.3.3"
bytemuck = "=1.25.2"
hex = "=0.4.3"
sgx-quote = "=0.1.0"
solana-sdk = "=1.16.27"
switchboard-common = { version = "=0.8.22", features = ["client"] }
