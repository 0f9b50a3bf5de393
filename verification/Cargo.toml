[package]
name = "spill"
version = "0.1.0"
edition = "2021"
publish = false

[dependencies]
bitcoin = "=0.32.102"
serde_json = "=1.0.154"

[dev-dependencies]
bitcoin = { version = "=0.32.102", features = ["bitcoinconsensus-std"] }
