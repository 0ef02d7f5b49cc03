[package]
name = "seed_vault"
version = "0.1.0"
edition = "2021"
publish = false

[dependencies]
bytes = "1"
rand = "=0.8.8"
google-cloud-kms = "=0.6.0"
google-cloud-storage = "=1.20.0"
tokio = { version = "=1.53.2", features = ["macros", "rt-multi-thread"] }
