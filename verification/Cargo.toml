[package]
name = "mage_hands"
version = "0.1.0"
edition = "2021"
publish = false

[dependencies]
base64 = "=0.13.1"
primitive-types = { version = "=0.12.2", default-features = false }
sha2 = "=0.10.9"
rand = { version = "=0.8.8", default-features = false }
rand_chacha = { version = "=0.3.1", default-features = false }
bincode2 = "=2.0.1"
serde = { version = "1", features = ["derive"] }
secret-cosmwasm-std = "=1.1.11"
secret-cosmwasm-storage = "=1.1.11"
secret-toolkit = { version = "=0.10.3", features = ["permit"] }
