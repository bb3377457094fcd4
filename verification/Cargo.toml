[package]
name = "af_pqc"
version = "0.1.0"
edition = "2021"
publish = false

[dependencies]
aes-gcm = "0.10"
anyhow = "1"
base64 = "0.22"
clap = { version = "4", features = ["derive"] }
clap_complete = "4"
crystals-dilithium = "*"
ed25519-dalek = { version = "2", features = ["rand_core"] }
env_logger = "0.11"
hex = "0.4"
indicatif = "0.17"
log = "0.4"
rand = "0.8"
rand_chacha = "0.3"
rand_core = "0.6"
serde = { version = "1", features = ["derive"] }
serde_json = "1"
sha2 = "0.10"
tokio = { version = "1", features = ["macros", "rt-multi-thread"] }
