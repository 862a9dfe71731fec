[package]
name = "cache_poisoning"
version = "0.1.0"
edition = "2021"
publish = false

[dependencies]
github-actions-models = "=1.30.1"
anyhow = "=1.0.104"
yaml_serde = "*"
