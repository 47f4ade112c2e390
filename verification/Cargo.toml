[package]
name = "rustboot"
version = "0.1.0"
edition = "2021"
publish = false

[dependencies]
ed25519-dalek = "2"
sha2 = "0.10"
hex = "0.4"
log = "0.4"
env_logger = "0.11"
