[package]
name = "renode_run"
version = "0.1.0"
edition = "2021"
publish = false

[dependencies]
unindent = "=0.2.4"
indent = "=0.1.1"
clap = { version = "=4.6.7", features = ["derive", "env"] }
serde = { version = "*", features = ["derive"] }
cargo_metadata = "=0.23.1"
cargo_toml = "=1.0.1"
tempfile = "*"
env_logger = "*"
log = "*"
