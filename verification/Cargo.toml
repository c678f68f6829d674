[package]
name = "balena_migrate"
version = "0.1.0"
edition = "2021"
publish = false

[dependencies]
serde_yaml = "0.9"
serde_json = "1"
url = "2"
regex = "1"
