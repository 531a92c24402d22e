[package]
name = "ssh_alias"
version = "0.1.0"
edition = "2021"
publish = false

[dependencies]
env_logger = "0.8"
eyre = "0.6"
log = "0.4"
serde = { version = "1", features = ["derive"] }
serde_yaml = "0.8"
structopt = "0.3"
