[package]
name = "impostare"
version = "0.1.0"
edition = "2021"
publish = false

[dependencies]
postgres = "*"
serde = { version = "*", features = ["derive"] }
toml = "*"
anyhow = "*"
log = "*"
pretty_env_logger = "*"
