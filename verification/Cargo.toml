[package]
name = "interaction_gate"
version = "0.1.0"
edition = "2021"
publish = false

[dependencies]
ed25519-dalek = "*"
hex = "*"
serde_json = "*"
twilight-model = "*"
worker = "*"
