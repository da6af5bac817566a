[package]
name = "sptty"
version = "0.1.0"
edition = "2021"
publish = false

[dependencies]
anyhow = "1"
base64 = "0.13"
clap = { version = "3", features = ["derive"] }
dirs = "4"
hyper = { version = "0.14", features = ["server", "http1", "tcp"] }
librespot = { version = "0.4", default-features = false }
log = "0.4"
opener = "0.5"
pretty_env_logger = "0.4"
rand = "0.8"
reqwest = "0.11"
ring = "0.16"
serde = { version = "1", features = ["derive"] }
serde_json = "1"
tokio = { version = "1", features = ["full"] }
toml = "0.5"
