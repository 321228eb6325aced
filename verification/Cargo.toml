[package]
name = "subspace_verification"
version = "0.1.0"
edition = "2021"
publish = false

[dependencies]
ab-merkle-tree = "=0.1.0"
blake3 = "=1.8.7"
schnorrkel = "=0.11.5"
parity-scale-codec = { version = "=3.7.5", features = ["derive"] }
serde = { version = "=1.0.229", features = ["derive"] }
thiserror = "=2.0.21"
